//! Subtitle candidate selection: language normalisation and extraction,
//! and the filter-and-rank step applied to what the subtitle plugins
//! returned.

use vstd::prelude::*;
use crate::abi::{EntryKind, PluginEntry, SearchScope, opt_view};
use crate::sort::{is_stable_sort_by, lemma_stable_sort_by_keys, stable_sort};
use crate::text::{contains, contains_sub, owned, push_str, str_eq, to_lowercase, trim, trim_spec,
    unicode_lowercase};

verus! {

/// One subtitle candidate from a single plugin.
#[derive(Debug, Clone)]
pub struct SubtitleCandidate {
    pub plugin_id: String,
    pub plugin_name: String,
    pub entry: PluginEntry,
    /// Best-effort language (BCP-47 or ISO 639-1/2/3); `None` when the
    /// plugin did not surface one.
    pub language: Option<String>,
}

// ── Languages ────────────────────────────────────────────────────────────────

/// The two-letter code of a lowercased language name or ISO 639-2/3 code;
/// other text is kept as is.
pub open spec fn code_of(l: Seq<char>) -> Seq<char> {
    if l == "eng"@ || l == "english"@ {
        "en"@
    } else if l == "spa"@ || l == "es"@ || l == "spanish"@ {
        "es"@
    } else if l == "fre"@ || l == "fra"@ || l == "french"@ {
        "fr"@
    } else if l == "ger"@ || l == "deu"@ || l == "german"@ {
        "de"@
    } else if l == "ita"@ || l == "italian"@ {
        "it"@
    } else if l == "por"@ || l == "portuguese"@ {
        "pt"@
    } else if l == "rus"@ || l == "russian"@ {
        "ru"@
    } else if l == "jpn"@ || l == "japanese"@ {
        "ja"@
    } else if l == "kor"@ || l == "korean"@ {
        "ko"@
    } else if l == "chi"@ || l == "zho"@ || l == "chinese"@ {
        "zh"@
    } else if l == "ara"@ || l == "arabic"@ {
        "ar"@
    } else {
        l
    }
}

/// The ISO 639 table the normalisation follows: each language's ISO 639-2
/// code(s) and English name map to its ISO 639-1 code, which maps to
/// itself; and normalising twice is normalising once.
#[verifier::rlimit(60)]
pub proof fn lemma_iso_639_codes(l: Seq<char>)
    ensures
        code_of("eng"@) == "en"@ && code_of("english"@) == "en"@ && code_of("en"@) == "en"@,
        code_of("spa"@) == "es"@ && code_of("spanish"@) == "es"@ && code_of("es"@) == "es"@,
        code_of("fre"@) == "fr"@ && code_of("fra"@) == "fr"@ && code_of("french"@) == "fr"@ && code_of("fr"@)
            == "fr"@,
        code_of("ger"@) == "de"@ && code_of("deu"@) == "de"@ && code_of("german"@) == "de"@ && code_of("de"@)
            == "de"@,
        code_of("ita"@) == "it"@ && code_of("italian"@) == "it"@ && code_of("it"@) == "it"@,
        code_of("por"@) == "pt"@ && code_of("portuguese"@) == "pt"@ && code_of("pt"@) == "pt"@,
        code_of("rus"@) == "ru"@ && code_of("russian"@) == "ru"@ && code_of("ru"@) == "ru"@,
        code_of("jpn"@) == "ja"@ && code_of("japanese"@) == "ja"@ && code_of("ja"@) == "ja"@,
        code_of("kor"@) == "ko"@ && code_of("korean"@) == "ko"@ && code_of("ko"@) == "ko"@,
        code_of("chi"@) == "zh"@ && code_of("zho"@) == "zh"@ && code_of("chinese"@) == "zh"@ && code_of("zh"@)
            == "zh"@,
        code_of("ara"@) == "ar"@ && code_of("arabic"@) == "ar"@ && code_of("ar"@) == "ar"@,
        code_of(code_of(l)) == code_of(l),
{
    reveal_strlit("eng");
    reveal_strlit("english");
    reveal_strlit("en");
    reveal_strlit("spa");
    reveal_strlit("spanish");
    reveal_strlit("es");
    reveal_strlit("fre");
    reveal_strlit("fra");
    reveal_strlit("french");
    reveal_strlit("fr");
    reveal_strlit("ger");
    reveal_strlit("deu");
    reveal_strlit("german");
    reveal_strlit("de");
    reveal_strlit("ita");
    reveal_strlit("italian");
    reveal_strlit("it");
    reveal_strlit("por");
    reveal_strlit("portuguese");
    reveal_strlit("pt");
    reveal_strlit("rus");
    reveal_strlit("russian");
    reveal_strlit("ru");
    reveal_strlit("jpn");
    reveal_strlit("japanese");
    reveal_strlit("ja");
    reveal_strlit("kor");
    reveal_strlit("korean");
    reveal_strlit("ko");
    reveal_strlit("chi");
    reveal_strlit("zho");
    reveal_strlit("chinese");
    reveal_strlit("zh");
    reveal_strlit("ara");
    reveal_strlit("arabic");
    reveal_strlit("ar");
    assert("eng"@ =~= seq!['e', 'n', 'g']);
    assert("english"@ =~= seq!['e', 'n', 'g', 'l', 'i', 's', 'h']);
    assert("en"@ =~= seq!['e', 'n']);
    assert("spa"@ =~= seq!['s', 'p', 'a']);
    assert("spanish"@ =~= seq!['s', 'p', 'a', 'n', 'i', 's', 'h']);
    assert("es"@ =~= seq!['e', 's']);
    assert("fre"@ =~= seq!['f', 'r', 'e']);
    assert("fra"@ =~= seq!['f', 'r', 'a']);
    assert("french"@ =~= seq!['f', 'r', 'e', 'n', 'c', 'h']);
    assert("fr"@ =~= seq!['f', 'r']);
    assert("ger"@ =~= seq!['g', 'e', 'r']);
    assert("deu"@ =~= seq!['d', 'e', 'u']);
    assert("german"@ =~= seq!['g', 'e', 'r', 'm', 'a', 'n']);
    assert("de"@ =~= seq!['d', 'e']);
    assert("ita"@ =~= seq!['i', 't', 'a']);
    assert("italian"@ =~= seq!['i', 't', 'a', 'l', 'i', 'a', 'n']);
    assert("it"@ =~= seq!['i', 't']);
    assert("por"@ =~= seq!['p', 'o', 'r']);
    assert("portuguese"@ =~= seq!['p', 'o', 'r', 't', 'u', 'g', 'u', 'e', 's', 'e']);
    assert("pt"@ =~= seq!['p', 't']);
    assert("rus"@ =~= seq!['r', 'u', 's']);
    assert("russian"@ =~= seq!['r', 'u', 's', 's', 'i', 'a', 'n']);
    assert("ru"@ =~= seq!['r', 'u']);
    assert("jpn"@ =~= seq!['j', 'p', 'n']);
    assert("japanese"@ =~= seq!['j', 'a', 'p', 'a', 'n', 'e', 's', 'e']);
    assert("ja"@ =~= seq!['j', 'a']);
    assert("kor"@ =~= seq!['k', 'o', 'r']);
    assert("korean"@ =~= seq!['k', 'o', 'r', 'e', 'a', 'n']);
    assert("ko"@ =~= seq!['k', 'o']);
    assert("chi"@ =~= seq!['c', 'h', 'i']);
    assert("zho"@ =~= seq!['z', 'h', 'o']);
    assert("chinese"@ =~= seq!['c', 'h', 'i', 'n', 'e', 's', 'e']);
    assert("zh"@ =~= seq!['z', 'h']);
    assert("ara"@ =~= seq!['a', 'r', 'a']);
    assert("arabic"@ =~= seq!['a', 'r', 'a', 'b', 'i', 'c']);
    assert("ar"@ =~= seq!['a', 'r']);
}

/// The two-letter code of an already lowercased language name or code.
fn western_code(l: &str) -> (r: Option<&'static str>)
    ensures
        match r {
            Some(c) => code_of(l@) == c@ && (l@ == "eng"@ || l@ == "english"@ || l@ == "spa"@
                || l@ == "es"@ || l@ == "spanish"@ || l@ == "fre"@ || l@ == "fra"@ || l@
                == "french"@ || l@ == "ger"@ || l@ == "deu"@ || l@ == "german"@ || l@ == "ita"@
                || l@ == "italian"@ || l@ == "por"@ || l@ == "portuguese"@),
            None => !(l@ == "eng"@ || l@ == "english"@ || l@ == "spa"@ || l@ == "es"@ || l@
                == "spanish"@ || l@ == "fre"@ || l@ == "fra"@ || l@ == "french"@ || l@ == "ger"@
                || l@ == "deu"@ || l@ == "german"@ || l@ == "ita"@ || l@ == "italian"@ || l@
                == "por"@ || l@ == "portuguese"@),
        },
{
    if str_eq(l, "eng") || str_eq(l, "english") {
        Some("en")
    } else if str_eq(l, "spa") || str_eq(l, "es") || str_eq(l, "spanish") {
        Some("es")
    } else if str_eq(l, "fre") || str_eq(l, "fra") || str_eq(l, "french") {
        Some("fr")
    } else if str_eq(l, "ger") || str_eq(l, "deu") || str_eq(l, "german") {
        Some("de")
    } else if str_eq(l, "ita") || str_eq(l, "italian") {
        Some("it")
    } else if str_eq(l, "por") || str_eq(l, "portuguese") {
        Some("pt")
    } else {
        None
    }
}

/// The two-letter code of an already lowercased language name or code
/// (see `code_of`); other text is returned as is.
pub fn language_code(l: &str) -> (r: String)
    ensures
        r@ == code_of(l@),
{
    match western_code(l) {
        Some(c) => owned(c),
        None => {
            if str_eq(l, "rus") || str_eq(l, "russian") {
                owned("ru")
            } else if str_eq(l, "jpn") || str_eq(l, "japanese") {
                owned("ja")
            } else if str_eq(l, "kor") || str_eq(l, "korean") {
                owned("ko")
            } else if str_eq(l, "chi") || str_eq(l, "zho") || str_eq(l, "chinese") {
                owned("zh")
            } else if str_eq(l, "ara") || str_eq(l, "arabic") {
                owned("ar")
            } else {
                owned(l)
            }
        },
    }
}

/// A language in normal form: trimmed, lowercased, and mapped to its
/// two-letter code when known.
pub open spec fn normalized_language(lang: Seq<char>) -> Seq<char> {
    code_of(unicode_lowercase(trim_spec(lang)))
}

/// Trim, lowercase, and map ISO 639-2/3 codes and English names to the
/// two-letter code.
pub fn normalize_language(lang: &str) -> (r: String)
    ensures
        r@ == normalized_language(lang@),
{
    let t = trim(lang);
    let l = to_lowercase(t.as_str());
    language_code(l.as_str())
}

/// The language names searched for in an entry's title and description,
/// in the order they are tried.
pub open spec fn language_tokens() -> Seq<Seq<char>> {
    seq![
        "english"@,
        "spanish"@,
        "french"@,
        "german"@,
        "italian"@,
        "portuguese"@,
        "russian"@,
        "japanese"@,
        "korean"@,
        "chinese"@,
        "arabic"@,
    ]
}

/// The first of the tokens from position `i` on that occurs in `hay`.
pub open spec fn first_token_in(hay: Seq<char>, i: int) -> Option<Seq<char>>
    decreases language_tokens().len() - i,
{
    if i < 0 || i >= language_tokens().len() {
        None
    } else if contains_sub(hay, language_tokens()[i]) {
        Some(language_tokens()[i])
    } else {
        first_token_in(hay, i + 1)
    }
}

/// Where the language of an entry is searched: its lowercased title, a
/// space, and its lowercased description (empty when absent).
pub open spec fn language_haystack(e: PluginEntry) -> Seq<char> {
    unicode_lowercase(e.title@) + " "@ + unicode_lowercase(
        match e.description {
            Some(d) => d@,
            None => Seq::empty(),
        },
    )
}

/// The language of an entry: its non-empty original language, else the
/// code of the first language name found in its title or description.
pub open spec fn entry_language(e: PluginEntry) -> Option<Seq<char>> {
    if e.original_language is Some && e.original_language.unwrap()@.len() > 0 {
        Some(e.original_language.unwrap()@)
    } else {
        match first_token_in(language_haystack(e), 0) {
            Some(t) => Some(code_of(t)),
            None => None,
        }
    }
}

/// Best-effort language of an entry (see `entry_language`).
pub fn extract_language(entry: &PluginEntry) -> (r: Option<String>)
    ensures
        opt_view(r) == entry_language(*entry),
{
    match &entry.original_language {
        Some(lang) => {
            if lang.unicode_len() > 0 {
                return Some(lang.clone());
            }
        },
        None => {},
    }
    let mut hay = to_lowercase(entry.title.as_str());
    push_str(&mut hay, " ");
    let desc = match &entry.description {
        Some(d) => to_lowercase(d.as_str()),
        None => to_lowercase(""),
    };
    push_str(&mut hay, desc.as_str());
    proof {
        reveal_strlit("");
        assert(""@ =~= Seq::<char>::empty());
        assert(hay@ == language_haystack(*entry));
    }
    let tokens: [&str; 11] = [
        "english",
        "spanish",
        "french",
        "german",
        "italian",
        "portuguese",
        "russian",
        "japanese",
        "korean",
        "chinese",
        "arabic",
    ];
    assert(forall|q: int| 0 <= q < 11 ==> tokens@[q]@ == language_tokens()[q]);
    let mut i: usize = 0;
    while i < 11
        invariant
            i <= 11,
            hay@ == language_haystack(*entry),
            !(entry.original_language is Some && entry.original_language.unwrap()@.len() > 0),
            forall|q: int| 0 <= q < 11 ==> tokens@[q]@ == language_tokens()[q],
            first_token_in(hay@, 0) == first_token_in(hay@, i as int),
        decreases 11 - i,
    {
        if contains(hay.as_str(), tokens[i]) {
            return Some(language_code(tokens[i]));
        }
        i += 1;
    }
    None
}

/// Subtitle search scope of an entry kind: movies by movie, series and
/// episodes by series, anything else by movie.
pub open spec fn scope_of_kind(kind: EntryKind) -> SearchScope {
    match kind {
        EntryKind::Movie => SearchScope::Movie,
        EntryKind::Series | EntryKind::Episode => SearchScope::Series,
        _ => SearchScope::Movie,
    }
}

/// Subtitle search scope of an entry kind.
pub fn kind_to_scope(kind: EntryKind) -> (r: SearchScope)
    ensures
        r == scope_of_kind(kind),
{
    match kind {
        EntryKind::Movie => SearchScope::Movie,
        EntryKind::Series | EntryKind::Episode => SearchScope::Series,
        _ => SearchScope::Movie,
    }
}

// ── Selection ────────────────────────────────────────────────────────────────

/// UTF-8 width of a character.
pub open spec fn utf8_width(c: char) -> nat {
    if (c as u32) < 0x80 {
        1
    } else if (c as u32) < 0x800 {
        2
    } else if (c as u32) < 0x10000 {
        3
    } else {
        4
    }
}

/// UTF-8 length of a text (`str::len`).
pub open spec fn utf8_len(s: Seq<char>) -> nat
    decreases s.len(),
{
    if s.len() == 0 {
        0
    } else {
        utf8_len(s.drop_last()) + utf8_width(s.last())
    }
}

/// UTF-8 length of a text.
pub fn utf8_length(s: &str) -> (r: u128)
    ensures
        r == utf8_len(s@),
        r <= 4 * (usize::MAX as int),
{
    let v = crate::text::chars_of(s);
    let n = v.len();
    let mut total: u128 = 0;
    let mut i: usize = 0;
    while i < n
        invariant
            v@ == s@,
            n == s@.len(),
            i <= n,
            total == utf8_len(s@.subrange(0, i as int)),
            total <= 4 * i,
            n <= usize::MAX,
        decreases n - i,
    {
        let c = v[i];
        let cp = c as u32;
        let w: u128 = if cp < 0x80 {
            1
        } else if cp < 0x800 {
            2
        } else if cp < 0x10000 {
            3
        } else {
            4
        };
        proof {
            assert(s@.subrange(0, i + 1).drop_last() =~= s@.subrange(0, i as int));
        }
        total = total + w;
        i += 1;
    }
    assert(s@.subrange(0, n as int) =~= s@);
    total
}

/// Whether the candidate's language normalises to `target`.
pub open spec fn language_matches(c: SubtitleCandidate, target: Seq<char>) -> bool {
    c.language is Some && normalized_language(c.language.unwrap()@) == target
}

/// The candidates kept for ranking: those whose language matches when any
/// does; otherwise all the others (unknown languages beat no candidates).
pub open spec fn kept_candidates(cs: Seq<SubtitleCandidate>, target: Seq<char>) -> Seq<
    SubtitleCandidate,
> {
    let m = cs.filter(|c: SubtitleCandidate| language_matches(c, target));
    if m.len() > 0 {
        m
    } else {
        cs.filter(|c: SubtitleCandidate| !language_matches(c, target))
    }
}

/// Whether the candidate carries the wanted IMDb id (both absent counts).
pub open spec fn imdb_matches(c: SubtitleCandidate, imdb: Option<Seq<char>>) -> bool {
    opt_view(c.entry.imdb_id) == imdb
}

/// Description text of a candidate (absent: empty).
pub open spec fn description_text(c: SubtitleCandidate) -> Seq<char> {
    match c.entry.description {
        Some(d) => d@,
        None => Seq::empty(),
    }
}

/// Description length of a candidate, in UTF-8 bytes (absent: 0).
pub open spec fn description_len(c: SubtitleCandidate) -> nat {
    utf8_len(description_text(c))
}

/// `a` ranks before `b`: IMDb match first, then the longer description.
pub open spec fn subtitle_before(a: SubtitleCandidate, b: SubtitleCandidate, imdb: Option<Seq<char>>) -> bool {
    (imdb_matches(a, imdb) && !imdb_matches(b, imdb)) || (imdb_matches(a, imdb) == imdb_matches(
        b,
        imdb,
    ) && description_len(a) > description_len(b))
}

/// `full` is `kept` in ranking order (stable).
pub open spec fn sorted_subtitles(
    full: Seq<SubtitleCandidate>,
    kept: Seq<SubtitleCandidate>,
    imdb: Option<Seq<char>>,
) -> bool {
    is_stable_sort_by(
        full,
        kept,
        |a: SubtitleCandidate, b: SubtitleCandidate| subtitle_before(a, b, imdb),
    )
}

/// `r` is the first `MAX_SUBTITLE_CANDIDATES` of `kept` in ranking order.
pub open spec fn subtitle_ranking(
    r: Seq<SubtitleCandidate>,
    kept: Seq<SubtitleCandidate>,
    imdb: Option<Seq<char>>,
) -> bool {
    exists|full: Seq<SubtitleCandidate>|
        #[trigger] sorted_subtitles(full, kept, imdb) && r == full.take(
            if full.len() <= MAX_SUBTITLE_CANDIDATES {
                full.len() as int
            } else {
                MAX_SUBTITLE_CANDIDATES as int
            },
        )
}

/// Maximum number of subtitle candidates returned.
pub const MAX_SUBTITLE_CANDIDATES: usize = 5;

/// Filter the candidates by language and rank them: keep those whose
/// language matches `language` (after normalisation) when any does, else
/// all the others; sort stably with IMDb-id matches first and longer
/// descriptions next; keep the first five.
pub fn rank_subtitle_candidates(
    candidates: Vec<SubtitleCandidate>,
    language: &str,
    imdb_id: Option<&str>,
) -> (r: Vec<SubtitleCandidate>)
    ensures
        subtitle_ranking(
            r@,
            kept_candidates(candidates@, normalized_language(language@)),
            match imdb_id {
                Some(s) => Some(s@),
                None => None,
            },
        ),
{
    let ghost cs = candidates@;
    let target = normalize_language(language);
    let ghost tv = target@;
    let ghost imdb = match imdb_id {
        Some(s) => Some(s@),
        None => None::<Seq<char>>,
    };
    let n = candidates.len();
    let mut rest = candidates;
    let mut matching: Vec<SubtitleCandidate> = Vec::new();
    let mut others: Vec<SubtitleCandidate> = Vec::new();
    let mut i: usize = 0;
    while i < n
        invariant
            n == cs.len(),
            i <= n,
            tv == target@,
            rest@ == cs.subrange(i as int, n as int),
            matching@ == cs.subrange(0, i as int).filter(
                |c: SubtitleCandidate| language_matches(c, tv),
            ),
            others@ == cs.subrange(0, i as int).filter(
                |c: SubtitleCandidate| !language_matches(c, tv),
            ),
        decreases n - i,
    {
        let c = rest.remove(0);
        assert(c == cs[i as int]);
        let ghost pre = cs.subrange(0, i as int);
        assert(cs.subrange(0, i + 1) =~= pre.push(c));
        proof {
            crate::sources::lemma_filter_push(pre, c, |c: SubtitleCandidate| language_matches(c, tv));
            crate::sources::lemma_filter_push(
                pre,
                c,
                |c: SubtitleCandidate| !language_matches(c, tv),
            );
        }
        let is_match = match &c.language {
            Some(l) => str_eq(normalize_language(l.as_str()).as_str(), target.as_str()),
            None => false,
        };
        if is_match {
            matching.push(c);
        } else {
            others.push(c);
        }
        i += 1;
        assert(rest@ =~= cs.subrange(i as int, n as int));
    }
    assert(cs.subrange(0, n as int) =~= cs);
    let kept = if matching.len() > 0 {
        matching
    } else {
        others
    };
    let ghost kv = kept@;
    let mut keys: Vec<i128> = Vec::new();
    let mut a: usize = 0;
    while a < kept.len()
        invariant
            a <= kept@.len(),
            kv == kept@,
            imdb == match imdb_id {
                Some(s) => Some(s@),
                None => None::<Seq<char>>,
            },
            keys@.len() == a,
            forall|q: int|
                0 <= q < a ==> keys@[q] == (if imdb_matches(#[trigger] kv[q], imdb) {
                    0int
                } else {
                    0x40_0000_0000_0000_0000_0000int
                }) - description_len(kv[q]),
            forall|q: int| 0 <= q < a ==> description_len(#[trigger] kv[q]) <= 4 * (usize::MAX as int),
        decreases kept@.len() - a,
    {
        let c = &kept[a];
        let im = match (&c.entry.imdb_id, imdb_id) {
            (Some(x), Some(y)) => str_eq(x.as_str(), y),
            (None, None) => true,
            _ => false,
        };
        let dl: u128 = match &c.entry.description {
            Some(d) => utf8_length(d.as_str()),
            None => 0,
        };
        assert(dl == description_len(*c)) by {
            assert(utf8_len(Seq::<char>::empty()) == 0);
        }
        let base: i128 = if im {
            0
        } else {
            0x40_0000_0000_0000_0000_0000
        };
        keys.push(base - dl as i128);
        a += 1;
    }
    let sorted = stable_sort(kept, &keys);
    proof {
        assert forall|x: int, y: int|
            0 <= x < kv.len() && 0 <= y < kv.len() implies subtitle_before(kv[x], kv[y], imdb) == (
            keys@[x] < keys@[y]) by {
            assert(description_len(kv[x]) <= 4 * (usize::MAX as int));
            assert(description_len(kv[y]) <= 4 * (usize::MAX as int));
        }
        lemma_stable_sort_by_keys(
            sorted@,
            kv,
            keys@,
            |a: SubtitleCandidate, b: SubtitleCandidate| subtitle_before(a, b, imdb),
        );
    }
    let mut out = sorted;
    out.truncate(MAX_SUBTITLE_CANDIDATES);
    proof {
        assert(sorted_subtitles(sorted@, kv, imdb));
        assert(out@ =~= sorted@.take(
            if sorted@.len() <= MAX_SUBTITLE_CANDIDATES {
                sorted@.len() as int
            } else {
                MAX_SUBTITLE_CANDIDATES as int
            },
        ));
    }
    out
}

/// Every entry of every answer, with the plugin's id and name, in order.
pub open spec fn answer_entries(ans: Seq<(String, String, Option<Vec<PluginEntry>>)>) -> Seq<
    (String, String, PluginEntry),
>
    decreases ans.len(),
{
    if ans.len() == 0 {
        Seq::empty()
    } else {
        let a = ans.last();
        answer_entries(ans.drop_last()) + match a.2 {
            Some(v) => v@.map_values(|e: PluginEntry| (a.0, a.1, e)),
            None => Seq::empty(),
        }
    }
}

/// `c` is the candidate for plugin entry `t`.
pub open spec fn is_candidate_of(c: SubtitleCandidate, t: (String, String, PluginEntry)) -> bool {
    &&& c.plugin_id == t.0
    &&& c.plugin_name == t.1
    &&& c.entry == t.2
    &&& opt_view(c.language) == entry_language(t.2)
}

/// `cs` are the candidates for `ts`, one for one.
pub open spec fn are_candidates_of(cs: Seq<SubtitleCandidate>, ts: Seq<(String, String, PluginEntry)>) -> bool {
    &&& cs.len() == ts.len()
    &&& forall|i: int| 0 <= i < cs.len() ==> is_candidate_of(#[trigger] cs[i], ts[i])
}

/// Turn the answers of the subtitle plugins (plugin id, plugin name, and
/// the entries it returned, or nothing when it failed or timed out) into
/// candidates: one per entry, in order, with its best-effort language.
pub fn collect_subtitle_candidates(answers: Vec<(String, String, Option<Vec<PluginEntry>>)>) -> (r:
    Vec<SubtitleCandidate>)
    ensures
        are_candidates_of(r@, answer_entries(answers@)),
{
    let ghost ans = answers@;
    let n = answers.len();
    let mut rest = answers;
    let mut out: Vec<SubtitleCandidate> = Vec::new();
    let mut i: usize = 0;
    while i < n
        invariant
            n == ans.len(),
            i <= n,
            rest@ == ans.subrange(i as int, n as int),
            are_candidates_of(out@, answer_entries(ans.subrange(0, i as int))),
        decreases n - i,
    {
        let (pid, pname, maybe) = rest.remove(0);
        assert(ans[i as int] == (pid, pname, maybe));
        let ghost pre = answer_entries(ans.subrange(0, i as int));
        assert(ans.subrange(0, i + 1).drop_last() =~= ans.subrange(0, i as int));
        assert(ans.subrange(0, i + 1).last() == ans[i as int]);
        match maybe {
            Some(entries) => {
                let ghost es = entries@;
                let ghost tail = es.map_values(|e: PluginEntry| (pid, pname, e));
                assert(answer_entries(ans.subrange(0, i + 1)) == pre + tail);
                let m = entries.len();
                let mut erest = entries;
                let mut k: usize = 0;
                while k < m
                    invariant
                        m == es.len(),
                        k <= m,
                        erest@ == es.subrange(k as int, m as int),
                        tail == es.map_values(|e: PluginEntry| (pid, pname, e)),
                        are_candidates_of(out@, pre + tail.subrange(0, k as int)),
                    decreases m - k,
                {
                    let e = erest.remove(0);
                    assert(e == es[k as int]);
                    let lang = extract_language(&e);
                    let ghost before = out@;
                    out.push(SubtitleCandidate {
                        plugin_id: pid.clone(),
                        plugin_name: pname.clone(),
                        entry: e,
                        language: lang,
                    });
                    proof {
                        let ts = pre + tail.subrange(0, k + 1);
                        assert(ts =~= (pre + tail.subrange(0, k as int)).push(tail[k as int]));
                        assert forall|q: int| 0 <= q < out@.len() implies is_candidate_of(
                            #[trigger] out@[q],
                            ts[q],
                        ) by {
                            if q < before.len() {
                                assert(out@[q] == before[q]);
                            }
                        }
                    }
                    k += 1;
                    assert(erest@ =~= es.subrange(k as int, m as int));
                }
                assert(tail.subrange(0, m as int) =~= tail);
            },
            None => {
                assert(answer_entries(ans.subrange(0, i + 1)) =~= pre);
            },
        }
        i += 1;
        assert(rest@ =~= ans.subrange(i as int, n as int));
    }
    assert(ans.subrange(0, n as int) =~= ans);
    out
}

} // verus!
