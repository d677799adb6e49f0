//! Runtime command-line and dispatch helpers: the cache admin command
//! parser, duration rendering, and the id routing of the episodes verb.

use vstd::prelude::*;
use crate::text::{chars_of, decimal, decimal_string, digit_char, owned, push_str, starts_with, str_eq};

verus! {

// ── Durations ────────────────────────────────────────────────────────────────

/// Rendering of a non-negative number of seconds: seconds under a minute,
/// minutes under an hour, hours and minutes under a day, else days and
/// hours.
pub open spec fn duration_body(a: nat) -> Seq<char> {
    if a < 60 {
        decimal(a) + "s"@
    } else if a < 3600 {
        decimal(a / 60) + "m"@
    } else if a < 86400 {
        decimal(a / 3600) + "h "@ + decimal((a % 3600) / 60) + "m"@
    } else {
        decimal(a / 86400) + "d "@ + decimal((a % 86400) / 3600) + "h"@
    }
}

/// Signed duration: `in <d>` ahead, `-<d> (expired)` behind.
pub open spec fn duration_text(secs: int) -> Seq<char> {
    if secs < 0 {
        "-"@ + duration_body((-secs) as nat) + " (expired)"@
    } else {
        "in "@ + duration_body(secs as nat)
    }
}

/// Human-readable duration: positive is time until, negative time since.
pub fn format_duration_signed(secs: i64) -> (r: String)
    ensures
        r@ == duration_text(secs as int),
{
    let abs: u64 = if secs < 0 {
        (0i128 - secs as i128) as u64
    } else {
        secs as u64
    };
    let mut body = String::new();
    if abs < 60 {
        push_str(&mut body, decimal_string(abs).as_str());
        push_str(&mut body, "s");
    } else if abs < 3600 {
        push_str(&mut body, decimal_string(abs / 60).as_str());
        push_str(&mut body, "m");
    } else if abs < 86400 {
        push_str(&mut body, decimal_string(abs / 3600).as_str());
        push_str(&mut body, "h ");
        push_str(&mut body, decimal_string((abs % 3600) / 60).as_str());
        push_str(&mut body, "m");
    } else {
        push_str(&mut body, decimal_string(abs / 86400).as_str());
        push_str(&mut body, "d ");
        push_str(&mut body, decimal_string((abs % 86400) / 3600).as_str());
        push_str(&mut body, "h");
    }
    assert(body@ == duration_body(abs as nat));
    if secs < 0 {
        let mut r = owned("-");
        push_str(&mut r, body.as_str());
        push_str(&mut r, " (expired)");
        r
    } else {
        let mut r = owned("in ");
        push_str(&mut r, body.as_str());
        r
    }
}

// ── Episodes routing ─────────────────────────────────────────────────────────

/// The providers whose ids an entry id may carry as `<provider>-<rest>`.
pub open spec fn is_episode_provider(p: Seq<char>) -> bool {
    p == "tmdb"@ || p == "tvdb"@ || p == "anilist"@ || p == "kitsu"@ || p == "imdb"@ || p
        == "omdb"@
}

/// Position of the first `-` in `s`, if any.
pub open spec fn first_dash(s: Seq<char>) -> Option<int> {
    if exists|i: int| 0 <= i < s.len() && s[i] == '-' {
        Some(choose|i: int| 0 <= i < s.len() && s[i] == '-' && forall|j: int| 0 <= j < i ==> s[j] != '-')
    } else {
        None
    }
}

/// The plugin that owns an entry for the episodes verb: the given id
/// source when non-empty, else the known provider before the entry id's
/// first `-`, else TMDB.
pub open spec fn episodes_source(entry_id: Seq<char>, id_source: Seq<char>) -> Seq<char> {
    if id_source.len() > 0 {
        id_source
    } else if first_dash(entry_id) is Some && is_episode_provider(
        entry_id.subrange(0, first_dash(entry_id).unwrap()),
    ) {
        entry_id.subrange(0, first_dash(entry_id).unwrap())
    } else {
        "tmdb"@
    }
}

/// Resolve the plugin that owns an entry for the episodes verb (see
/// `episodes_source`).
pub fn id_source_for_episodes(entry_id: &str, id_source: &str) -> (r: String)
    ensures
        r@ == episodes_source(entry_id@, id_source@),
{
    if id_source.unicode_len() > 0 {
        return owned(id_source);
    }
    let n = entry_id.unicode_len();
    let mut i: usize = 0;
    while i < n
        invariant
            n == entry_id@.len(),
            i <= n,
            id_source@.len() == 0,
            forall|j: int| 0 <= j < i ==> entry_id@[j] != '-',
        decreases n - i,
    {
        if entry_id.get_char(i) == '-' {
            let p = entry_id.substring_char(0, i);
            proof {
                let w = choose|w: int|
                    0 <= w < entry_id@.len() && entry_id@[w] == '-' && forall|j: int|
                        0 <= j < w ==> entry_id@[j] != '-';
                assert(0 <= i < entry_id@.len() && entry_id@[i as int] == '-' && forall|j: int|
                    0 <= j < i ==> entry_id@[j] != '-');
                if w < i {
                    assert(entry_id@[w] != '-');
                }
                if w > i {
                    assert(entry_id@[i as int] != '-');
                }
                assert(first_dash(entry_id@) == Some(i as int));
            }
            if str_eq(p, "tmdb") || str_eq(p, "tvdb") || str_eq(p, "anilist") || str_eq(p, "kitsu")
                || str_eq(p, "imdb") || str_eq(p, "omdb") {
                return owned(p);
            }
            return owned("tmdb");
        }
        i += 1;
    }
    owned("tmdb")
}

/// `entry_id` without a leading `<provider>-`, or unchanged when it lacks
/// one.
pub fn strip_provider_prefix<'a>(entry_id: &'a str, provider: &str) -> (r: &'a str)
    ensures
        r@ == if (provider@ + "-"@).len() <= entry_id@.len() && entry_id@.subrange(
            0,
            (provider@ + "-"@).len() as int,
        ) == provider@ + "-"@ {
            entry_id@.subrange((provider@ + "-"@).len() as int, entry_id@.len() as int)
        } else {
            entry_id@
        },
{
    let mut pat = owned(provider);
    push_str(&mut pat, "-");
    if starts_with(entry_id, pat.as_str()) {
        let k = pat.unicode_len();
        entry_id.substring_char(k, entry_id.unicode_len())
    } else {
        entry_id
    }
}

// ── Cache admin command ──────────────────────────────────────────────────────

/// A parsed `cache` admin command.
#[derive(Debug, Clone, PartialEq, Eq)]
pub enum CacheCommand {
    /// Summary of every namespace.
    Stats,
    /// Wipe all rows, or one namespace's.
    Clear { namespace: Option<String> },
    /// List a namespace's keys.
    List { namespace: String, limit: usize },
    /// Pretty-print one cached value.
    Inspect { namespace: String, key: String },
}

/// The usage text of the cache command.
pub open spec fn cache_usage() -> Seq<char> {
    "usage: stui-runtime cache <subcommand>\n  stats                                 summary of every namespace\n  clear [--namespace <ns>]              wipe all rows, or just one namespace\n  list <namespace> [--limit N]          list keys (default limit 20)\n  inspect <namespace> <key>             pretty-print the cached value"@
}

/// The usage text of the cache command.
pub fn cache_usage_text() -> (r: &'static str)
    ensures
        r@ == cache_usage(),
{
    "usage: stui-runtime cache <subcommand>\n  stats                                 summary of every namespace\n  clear [--namespace <ns>]              wipe all rows, or just one namespace\n  list <namespace> [--limit N]          list keys (default limit 20)\n  inspect <namespace> <key>             pretty-print the cached value"
}

/// The value of a decimal digit character.
pub open spec fn digit_value(c: char) -> int {
    (c as u32) - ('0' as u32)
}

/// Whether `c` is an ASCII decimal digit.
pub open spec fn is_digit(c: char) -> bool {
    '0' <= c && c <= '9'
}

/// The number the decimal digits of `s` spell.
pub open spec fn digits_value(s: Seq<char>) -> int
    decreases s.len(),
{
    if s.len() == 0 {
        0
    } else {
        digits_value(s.drop_last()) * 10 + digit_value(s.last())
    }
}

/// The digits of an unsigned integer literal: `s` without an optional
/// leading `+`.
pub open spec fn unsigned_digits(s: Seq<char>) -> Seq<char> {
    if s.len() > 0 && s[0] == '+' {
        s.drop_first()
    } else {
        s
    }
}

/// What `str::parse::<usize>` accepts: an optional `+` and at least one
/// digit, all digits, with a value that fits.
pub open spec fn parsed_usize(s: Seq<char>) -> Option<nat> {
    let d = unsigned_digits(s);
    if d.len() > 0 && (forall|i: int| 0 <= i < d.len() ==> is_digit(#[trigger] d[i]))
        && digits_value(d) <= usize::MAX {
        Some(digits_value(d) as nat)
    } else {
        None
    }
}

/// A decimal rendering is all digits, never empty, and spells its number.
proof fn lemma_decimal_digits(n: nat)
    ensures
        decimal(n).len() > 0,
        forall|i: int| 0 <= i < decimal(n).len() ==> is_digit(#[trigger] decimal(n)[i]),
        digits_value(decimal(n)) == n,
    decreases n,
{
    if n >= 10 {
        lemma_decimal_digits(n / 10);
        let d = decimal(n / 10);
        let c = digit_char(n % 10);
        assert(decimal(n) == d.push(c));
        assert(d.push(c).drop_last() =~= d);
        assert(digit_value(c) == n % 10);
        assert(digits_value(decimal(n)) == digits_value(d) * 10 + digit_value(c));
        assert((n / 10) * 10 + n % 10 == n) by (nonlinear_arith);
        assert forall|i: int| 0 <= i < decimal(n).len() implies is_digit(#[trigger] decimal(n)[i]) by {
            if i < d.len() {
                assert(decimal(n)[i] == d[i]);
            }
        }
    } else {
        assert(digit_value(digit_char(n)) == n);
        assert(seq![digit_char(n)].drop_last() =~= Seq::<char>::empty());
        assert(digits_value(decimal(n)) == digits_value(Seq::<char>::empty()) * 10 + digit_value(digit_char(n)));
    }
}

/// A count written in decimal reads back as itself: the text `n.to_string()`
/// gives parses (as `parse::<usize>` does) to `n`.
pub proof fn lemma_decimal_parses_back(n: nat)
    requires
        n <= usize::MAX,
    ensures
        parsed_usize(decimal(n)) == Some(n),
{
    lemma_decimal_digits(n);
    assert(decimal(n)[0] != '+') by {
        assert(is_digit(decimal(n)[0]));
    }
    assert(unsigned_digits(decimal(n)) == decimal(n));
}

/// Values of digit prefixes only grow.
proof fn lemma_digits_monotone(d: Seq<char>, i: int)
    requires
        0 <= i <= d.len(),
        forall|q: int| 0 <= q < d.len() ==> is_digit(#[trigger] d[q]),
    ensures
        digits_value(d.subrange(0, i)) <= digits_value(d),
        0 <= digits_value(d.subrange(0, i)),
    decreases d.len() - i,
{
    if i < d.len() {
        lemma_digits_monotone(d, i + 1);
        assert(d.subrange(0, i + 1).drop_last() =~= d.subrange(0, i));
        lemma_digits_nonneg(d.subrange(0, i));
    } else {
        assert(d.subrange(0, i) =~= d);
        lemma_digits_nonneg(d);
    }
}

/// Digit values are non-negative.
proof fn lemma_digits_nonneg(d: Seq<char>)
    requires
        forall|q: int| 0 <= q < d.len() ==> is_digit(#[trigger] d[q]),
    ensures
        0 <= digits_value(d),
    decreases d.len(),
{
    if d.len() > 0 {
        lemma_digits_nonneg(d.drop_last());
    }
}

/// Parse an unsigned integer the way `str::parse::<usize>` does.
pub fn parse_usize(s: &str) -> (r: Option<usize>)
    ensures
        match r {
            Some(v) => parsed_usize(s@) == Some(v as nat),
            None => parsed_usize(s@) is None,
        },
{
    let cv = chars_of(s);
    let n = cv.len();
    let start: usize = if n > 0 && cv[0] == '+' {
        1
    } else {
        0
    };
    let ghost d = unsigned_digits(s@);
    assert(d =~= s@.subrange(start as int, n as int));
    if start >= n {
        return None;
    }
    let mut acc: usize = 0;
    let mut i: usize = start;
    while i < n
        invariant
            n == s@.len(),
            cv@ == s@,
            start <= i <= n,
            d == unsigned_digits(s@),
            d == s@.subrange(start as int, n as int),
            forall|q: int| start <= q < i ==> is_digit(#[trigger] s@[q]),
            acc == digits_value(s@.subrange(start as int, i as int)),
        decreases n - i,
    {
        let c = cv[i];
        if !('0' <= c && c <= '9') {
            proof {
                assert(!is_digit(d[i - start]));
            }
            return None;
        }
        let v = (c as u32 - '0' as u32) as usize;
        proof {
            assert(s@.subrange(start as int, i + 1).drop_last() =~= s@.subrange(start as int, i as int));
        }
        if acc > (usize::MAX - v) / 10 {
            proof {
                if forall|x: int| 0 <= x < d.len() ==> is_digit(#[trigger] d[x]) {
                    lemma_digits_monotone(d, i + 1 - start);
                    assert(d.subrange(0, i + 1 - start) =~= s@.subrange(start as int, i + 1));
                    assert(acc * 10 + v > usize::MAX) by (nonlinear_arith)
                        requires
                            acc > (usize::MAX - v) / 10,
                            v <= 9,
                    ;
                }
            }
            return None;
        }
        assert(acc * 10 + v <= usize::MAX) by (nonlinear_arith)
            requires
                acc <= (usize::MAX - v) / 10,
                v <= 9,
        ;
        acc = acc * 10 + v;
        i += 1;
    }
    assert(s@.subrange(start as int, n as int) =~= d);
    Some(acc)
}

/// The digits of a signed integer literal: `s` without an optional
/// leading `+` or `-`.
pub open spec fn signed_digits(s: Seq<char>) -> Seq<char> {
    if s.len() > 0 && (s[0] == '+' || s[0] == '-') {
        s.drop_first()
    } else {
        s
    }
}

/// What `str::parse::<i64>` accepts: an optional sign and at least one
/// digit, all digits, with a value in range; a leading `-` negates.
pub open spec fn parsed_i64(s: Seq<char>) -> Option<int> {
    let d = signed_digits(s);
    let v = if s.len() > 0 && s[0] == '-' { -digits_value(d) } else { digits_value(d) };
    if d.len() > 0 && (forall|i: int| 0 <= i < d.len() ==> is_digit(#[trigger] d[i]))
        && i64::MIN <= v <= i64::MAX {
        Some(v)
    } else {
        None
    }
}

/// `str::parse::<i64>` (see `parsed_i64`).
pub fn parse_i64(s: &str) -> (r: Option<i64>)
    ensures
        match r {
            Some(v) => parsed_i64(s@) == Some(v as int),
            None => parsed_i64(s@) is None,
        },
{
    let cv = chars_of(s);
    let n = cv.len();
    let neg = n > 0 && cv[0] == '-';
    let start: usize = if n > 0 && (cv[0] == '+' || cv[0] == '-') {
        1
    } else {
        0
    };
    let ghost d = signed_digits(s@);
    assert(d =~= s@.subrange(start as int, n as int));
    if start >= n {
        return None;
    }
    let limit: u64 = if neg { 0x8000_0000_0000_0000 } else { 0x7fff_ffff_ffff_ffff };
    let mut acc: u64 = 0;
    let mut i: usize = start;
    while i < n
        invariant
            n == s@.len(),
            cv@ == s@,
            start <= i <= n,
            d == signed_digits(s@),
            d == s@.subrange(start as int, n as int),
            forall|q: int| start <= q < i ==> is_digit(#[trigger] s@[q]),
            acc == digits_value(s@.subrange(start as int, i as int)),
            acc <= limit,
            limit == if neg { 0x8000_0000_0000_0000u64 } else { 0x7fff_ffff_ffff_ffffu64 },
            neg == (s@.len() > 0 && s@[0] == '-'),
        decreases n - i,
    {
        let c = cv[i];
        if !('0' <= c && c <= '9') {
            proof {
                assert(!is_digit(d[i - start]));
            }
            return None;
        }
        let v = (c as u32 - '0' as u32) as u64;
        proof {
            assert(s@.subrange(start as int, i + 1).drop_last() =~= s@.subrange(start as int, i as int));
        }
        if acc > (limit - v) / 10 {
            proof {
                if forall|x: int| 0 <= x < d.len() ==> is_digit(#[trigger] d[x]) {
                    lemma_digits_monotone(d, i + 1 - start);
                    assert(d.subrange(0, i + 1 - start) =~= s@.subrange(start as int, i + 1));
                    assert(acc * 10 + v > limit) by (nonlinear_arith)
                        requires
                            acc > (limit - v) / 10,
                            v <= 9,
                    ;
                }
            }
            return None;
        }
        assert(acc * 10 + v <= limit) by (nonlinear_arith)
            requires
                acc <= (limit - v) / 10,
                v <= 9,
        ;
        acc = acc * 10 + v;
        i += 1;
    }
    assert(s@.subrange(start as int, n as int) =~= d);
    if neg {
        if acc == 0x8000_0000_0000_0000 {
            Some(i64::MIN)
        } else {
            Some(-(acc as i64))
        }
    } else {
        Some(acc as i64)
    }
}

/// Scan of the `clear` operands from position `i`, with the namespace
/// chosen so far.
pub open spec fn clear_scan(args: Seq<String>, i: int, ns: Option<String>) -> Result<
    Option<String>,
    Seq<char>,
>
    decreases args.len() - i,
{
    if i >= args.len() || i < 0 {
        Ok(ns)
    } else if args[i]@ == "--namespace"@ {
        if i + 1 < args.len() {
            clear_scan(args, i + 2, Some(args[i + 1]))
        } else {
            Ok(None)
        }
    } else {
        Err("unknown flag '"@ + args[i]@ + "'"@)
    }
}

/// Scan of the `list` operands from position `i`, with the limit chosen so
/// far.
pub open spec fn list_scan(args: Seq<String>, i: int, limit: nat) -> Result<nat, Seq<char>>
    decreases args.len() - i,
{
    if i >= args.len() || i < 0 {
        Ok(limit)
    } else if args[i]@ == "--limit"@ {
        let p = if i + 1 < args.len() { parsed_usize(args[i + 1]@) } else { None };
        match p {
            Some(v) => list_scan(args, i + 2, v),
            None => Err("--limit expects a positive integer"@),
        }
    } else {
        Err("unknown flag '"@ + args[i]@ + "'"@)
    }
}

/// The cache command `args` spell (`args[2]` is the verb, `args[3..]` its
/// operands), or the message of the error.
pub open spec fn cache_command_of(args: Seq<String>) -> Result<CacheCommand, Seq<char>> {
    if args.len() <= 2 {
        Err(cache_usage())
    } else if args[2]@ == "stats"@ {
        Ok(CacheCommand::Stats)
    } else if args[2]@ == "clear"@ {
        match clear_scan(args, 3, None) {
            Ok(ns) => Ok(CacheCommand::Clear { namespace: ns }),
            Err(m) => Err(m),
        }
    } else if args[2]@ == "list"@ {
        if args.len() <= 3 {
            Err("usage: cache list <namespace> [--limit N]"@)
        } else {
            match list_scan(args, 4, 20) {
                Ok(l) => Ok(CacheCommand::List { namespace: args[3], limit: l as usize }),
                Err(m) => Err(m),
            }
        }
    } else if args[2]@ == "inspect"@ {
        if args.len() <= 4 {
            Err("usage: cache inspect <namespace> <key>"@)
        } else {
            Ok(CacheCommand::Inspect { namespace: args[3], key: args[4] })
        }
    } else {
        Err("unknown verb '"@ + args[2]@ + "'\n\n"@ + cache_usage())
    }
}

/// A result compared with its description: the same command, or an error
/// with the same message.
pub open spec fn matches_command(r: Result<CacheCommand, String>, spec: Result<CacheCommand, Seq<char>>) -> bool {
    match (r, spec) {
        (Ok(c), Ok(d)) => c == d,
        (Err(m), Err(e)) => m@ == e,
        _ => false,
    }
}

/// Parse the cache admin command (see `cache_command_of`).
pub fn parse_cache_command(args: &Vec<String>) -> (r: Result<CacheCommand, String>)
    ensures
        matches_command(r, cache_command_of(args@)),
{
    if args.len() <= 2 {
        return Err(owned(cache_usage_text()));
    }
    let verb = args[2].as_str();
    if str_eq(verb, "stats") {
        return Ok(CacheCommand::Stats);
    }
    if str_eq(verb, "clear") {
        return match parse_clear(args, 3, None) {
            Ok(ns) => Ok(CacheCommand::Clear { namespace: ns }),
            Err(m) => Err(m),
        };
    }
    if str_eq(verb, "list") {
        if args.len() <= 3 {
            return Err(owned("usage: cache list <namespace> [--limit N]"));
        }
        return match parse_list(args, 4, 20) {
            Ok(l) => Ok(CacheCommand::List { namespace: args[3].clone(), limit: l }),
            Err(m) => Err(m),
        };
    }
    if str_eq(verb, "inspect") {
        if args.len() <= 4 {
            return Err(owned("usage: cache inspect <namespace> <key>"));
        }
        return Ok(CacheCommand::Inspect { namespace: args[3].clone(), key: args[4].clone() });
    }
    let mut msg = owned("unknown verb '");
    push_str(&mut msg, verb);
    push_str(&mut msg, "'\n\n");
    push_str(&mut msg, cache_usage_text());
    Err(msg)
}

/// The `clear` operands from position `i` (see `clear_scan`).
fn parse_clear(args: &Vec<String>, i: usize, ns: Option<String>) -> (r: Result<Option<String>, String>)
    ensures
        match (r, clear_scan(args@, i as int, ns)) {
            (Ok(a), Ok(b)) => a == b,
            (Err(m), Err(e)) => m@ == e,
            _ => false,
        },
    decreases args@.len() - i,
{
    if i >= args.len() {
        return Ok(ns);
    }
    if str_eq(args[i].as_str(), "--namespace") {
        if i + 1 < args.len() {
            let next = Some(args[i + 1].clone());
            return parse_clear(args, i + 2, next);
        }
        return Ok(None);
    }
    let mut msg = owned("unknown flag '");
    push_str(&mut msg, args[i].as_str());
    push_str(&mut msg, "'");
    Err(msg)
}

/// The `list` operands from position `i` (see `list_scan`).
fn parse_list(args: &Vec<String>, i: usize, limit: usize) -> (r: Result<usize, String>)
    ensures
        match (r, list_scan(args@, i as int, limit as nat)) {
            (Ok(a), Ok(b)) => a as nat == b,
            (Err(m), Err(e)) => m@ == e,
            _ => false,
        },
    decreases args@.len() - i,
{
    if i >= args.len() {
        return Ok(limit);
    }
    if str_eq(args[i].as_str(), "--limit") {
        let parsed = if i + 1 < args.len() {
            parse_usize(args[i + 1].as_str())
        } else {
            None
        };
        match parsed {
            Some(v) => {
                return parse_list(args, i + 2, v);
            },
            None => {
                return Err(owned("--limit expects a positive integer"));
            },
        }
    }
    let mut msg = owned("unknown flag '");
    push_str(&mut msg, args[i].as_str());
    push_str(&mut msg, "'");
    Err(msg)
}

} // verus!
