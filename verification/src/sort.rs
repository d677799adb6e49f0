//! Stable sorting by key, and first-wins deduplication: the two list
//! disciplines that every merge step of the metadata pipeline is built from.

use vstd::prelude::*;

verus! {

// ── Keys ─────────────────────────────────────────────────────────────────────

/// A sort key with a strict weak order.
pub trait SortKey: Sized {
    /// `self` sorts strictly before `other`.
    spec fn key_lt(self, other: Self) -> bool;

    proof fn lemma_irreflexive(a: Self)
        ensures
            !a.key_lt(a),
    ;

    proof fn lemma_transitive(a: Self, b: Self, c: Self)
        requires
            a.key_lt(b),
            b.key_lt(c),
        ensures
            a.key_lt(c),
    ;

    /// Negative transitivity, stated in its contrapositive form.
    proof fn lemma_cotransitive(a: Self, b: Self, c: Self)
        requires
            a.key_lt(c),
        ensures
            a.key_lt(b) || b.key_lt(c),
    ;

    fn less(&self, other: &Self) -> (r: bool)
        ensures
            r == self.key_lt(*other),
    ;
}

impl SortKey for u64 {
    open spec fn key_lt(self, other: Self) -> bool {
        self < other
    }

    proof fn lemma_irreflexive(a: Self) {
    }

    proof fn lemma_transitive(a: Self, b: Self, c: Self) {
    }

    proof fn lemma_cotransitive(a: Self, b: Self, c: Self) {
    }

    fn less(&self, other: &Self) -> (r: bool) {
        *self < *other
    }
}

impl SortKey for i128 {
    open spec fn key_lt(self, other: Self) -> bool {
        self < other
    }

    proof fn lemma_irreflexive(a: Self) {
    }

    proof fn lemma_transitive(a: Self, b: Self, c: Self) {
    }

    proof fn lemma_cotransitive(a: Self, b: Self, c: Self) {
    }

    fn less(&self, other: &Self) -> (r: bool) {
        *self < *other
    }
}

// ── Lexicographic text order ─────────────────────────────────────────────────

/// Lexicographic order on character sequences by code point — the order of
/// `str`'s `Ord` (byte-wise UTF-8 order agrees with code-point order).
pub open spec fn chars_lt(a: Seq<char>, b: Seq<char>) -> bool
    decreases a.len(),
{
    if a.len() == 0 {
        b.len() > 0
    } else if b.len() == 0 {
        false
    } else if a[0] != b[0] {
        a[0] < b[0]
    } else {
        chars_lt(a.drop_first(), b.drop_first())
    }
}

pub proof fn lemma_chars_lt_irreflexive(a: Seq<char>)
    ensures
        !chars_lt(a, a),
    decreases a.len(),
{
    if a.len() > 0 {
        lemma_chars_lt_irreflexive(a.drop_first());
    }
}

pub proof fn lemma_chars_lt_transitive(a: Seq<char>, b: Seq<char>, c: Seq<char>)
    requires
        chars_lt(a, b),
        chars_lt(b, c),
    ensures
        chars_lt(a, c),
    decreases a.len(),
{
    if a.len() > 0 && b.len() > 0 && c.len() > 0 {
        if a[0] == b[0] && b[0] == c[0] {
            lemma_chars_lt_transitive(a.drop_first(), b.drop_first(), c.drop_first());
        }
    }
}

pub proof fn lemma_chars_lt_trichotomy(a: Seq<char>, b: Seq<char>)
    ensures
        chars_lt(a, b) || chars_lt(b, a) || a == b,
    decreases a.len(),
{
    if a.len() == 0 && b.len() == 0 {
        assert(a =~= b);
    } else if a.len() > 0 && b.len() > 0 && a[0] == b[0] {
        lemma_chars_lt_trichotomy(a.drop_first(), b.drop_first());
        if a.drop_first() == b.drop_first() {
            assert(a.drop_first().len() == a.len() - 1);
            assert(b.drop_first().len() == b.len() - 1);
            assert(a.len() == b.len());
            assert(a =~= b) by {
                assert forall|i: int| 0 <= i < a.len() implies a[i] == b[i] by {
                    if i > 0 {
                        assert(a[i] == a.drop_first()[i - 1]);
                        assert(b[i] == b.drop_first()[i - 1]);
                    }
                }
            }
        }
    }
}

/// Lexicographic order on a triple of character sequences.
pub open spec fn chars3_lt(
    a: (Seq<char>, Seq<char>, Seq<char>),
    b: (Seq<char>, Seq<char>, Seq<char>),
) -> bool {
    ||| chars_lt(a.0, b.0)
    ||| (a.0 == b.0 && chars_lt(a.1, b.1))
    ||| (a.0 == b.0 && a.1 == b.1 && chars_lt(a.2, b.2))
}

/// A sort key of three texts compared one after the other.
pub struct TextKey3 {
    pub first: Vec<char>,
    pub second: Vec<char>,
    pub third: Vec<char>,
}

pub open spec fn text_key3_view(k: TextKey3) -> (Seq<char>, Seq<char>, Seq<char>) {
    (k.first@, k.second@, k.third@)
}

proof fn lemma_chars3_lt_irreflexive(a: (Seq<char>, Seq<char>, Seq<char>))
    ensures
        !chars3_lt(a, a),
{
    lemma_chars_lt_irreflexive(a.0);
    lemma_chars_lt_irreflexive(a.1);
    lemma_chars_lt_irreflexive(a.2);
}

proof fn lemma_chars3_lt_transitive(
    a: (Seq<char>, Seq<char>, Seq<char>),
    b: (Seq<char>, Seq<char>, Seq<char>),
    c: (Seq<char>, Seq<char>, Seq<char>),
)
    requires
        chars3_lt(a, b),
        chars3_lt(b, c),
    ensures
        chars3_lt(a, c),
{
    if chars_lt(a.0, b.0) && chars_lt(b.0, c.0) {
        lemma_chars_lt_transitive(a.0, b.0, c.0);
    }
    if a.0 == b.0 && b.0 == c.0 {
        if chars_lt(a.1, b.1) && chars_lt(b.1, c.1) {
            lemma_chars_lt_transitive(a.1, b.1, c.1);
        }
        if a.1 == b.1 && b.1 == c.1 && chars_lt(a.2, b.2) && chars_lt(b.2, c.2) {
            lemma_chars_lt_transitive(a.2, b.2, c.2);
        }
    }
}

proof fn lemma_chars3_lt_trichotomy(
    a: (Seq<char>, Seq<char>, Seq<char>),
    b: (Seq<char>, Seq<char>, Seq<char>),
)
    ensures
        chars3_lt(a, b) || chars3_lt(b, a) || a == b,
{
    lemma_chars_lt_trichotomy(a.0, b.0);
    lemma_chars_lt_trichotomy(a.1, b.1);
    lemma_chars_lt_trichotomy(a.2, b.2);
}

impl SortKey for TextKey3 {
    open spec fn key_lt(self, other: Self) -> bool {
        chars3_lt(text_key3_view(self), text_key3_view(other))
    }

    proof fn lemma_irreflexive(a: Self) {
        lemma_chars3_lt_irreflexive(text_key3_view(a));
    }

    proof fn lemma_transitive(a: Self, b: Self, c: Self) {
        lemma_chars3_lt_transitive(text_key3_view(a), text_key3_view(b), text_key3_view(c));
    }

    proof fn lemma_cotransitive(a: Self, b: Self, c: Self) {
        let (x, y, z) = (text_key3_view(a), text_key3_view(b), text_key3_view(c));
        lemma_chars3_lt_trichotomy(x, y);
        lemma_chars3_lt_trichotomy(y, z);
        if !chars3_lt(x, y) && !chars3_lt(y, z) {
            if chars3_lt(y, x) {
                lemma_chars3_lt_transitive(y, x, z);
                if chars3_lt(z, y) {
                    lemma_chars3_lt_transitive(y, z, y);
                }
                lemma_chars3_lt_irreflexive(y);
            } else {
                if chars3_lt(z, y) {
                    lemma_chars3_lt_transitive(x, z, y);
                }
                lemma_chars3_lt_irreflexive(x);
            }
        }
    }

    fn less(&self, other: &Self) -> (r: bool) {
        let c1 = chars_order(&self.first, &other.first);
        if c1 != 0 {
            return c1 < 0;
        }
        let c2 = chars_order(&self.second, &other.second);
        if c2 != 0 {
            return c2 < 0;
        }
        chars_order(&self.third, &other.third) < 0
    }
}

/// Three-way lexicographic comparison: negative, zero or positive.
pub fn chars_order(a: &Vec<char>, b: &Vec<char>) -> (r: i8)
    ensures
        r < 0 <==> chars_lt(a@, b@),
        r == 0 <==> a@ == b@,
        r > 0 <==> chars_lt(b@, a@),
{
    let mut i: usize = 0;
    while i < a.len() && i < b.len()
        invariant
            i <= a@.len(),
            i <= b@.len(),
            a@.subrange(0, i as int) == b@.subrange(0, i as int),
        decreases a@.len() - i,
    {
        if a[i] != b[i] {
            proof {
                lemma_chars_lt_after_prefix(a@, b@, i as int);
                lemma_chars_lt_after_prefix(b@, a@, i as int);
                assert(a@.skip(i as int)[0] == a@[i as int]);
                assert(b@.skip(i as int)[0] == b@[i as int]);
            }
            if a[i] < b[i] {
                return -1;
            } else {
                return 1;
            }
        }
        proof {
            assert(a@.subrange(0, i + 1) =~= a@.subrange(0, i as int).push(a@[i as int]));
            assert(b@.subrange(0, i + 1) =~= b@.subrange(0, i as int).push(b@[i as int]));
        }
        i += 1;
    }
    proof {
        lemma_chars_lt_after_prefix(a@, b@, i as int);
        lemma_chars_lt_after_prefix(b@, a@, i as int);
        if a@.len() == b@.len() {
            assert(a@ =~= a@.subrange(0, i as int));
            assert(b@ =~= b@.subrange(0, i as int));
        }
    }
    if a.len() == b.len() {
        0
    } else if a.len() < b.len() {
        -1
    } else {
        1
    }
}

/// Comparing past a common prefix of length `i`.
proof fn lemma_chars_lt_after_prefix(a: Seq<char>, b: Seq<char>, i: int)
    requires
        0 <= i <= a.len(),
        i <= b.len(),
        a.subrange(0, i) == b.subrange(0, i),
    ensures
        chars_lt(a, b) == chars_lt(a.skip(i), b.skip(i)),
    decreases i,
{
    if i > 0 {
        assert(a[0] == a.subrange(0, i)[0]);
        assert(b[0] == b.subrange(0, i)[0]);
        assert(a.drop_first().subrange(0, i - 1) =~= a.subrange(0, i).drop_first());
        assert(b.drop_first().subrange(0, i - 1) =~= b.subrange(0, i).drop_first());
        lemma_chars_lt_after_prefix(a.drop_first(), b.drop_first(), i - 1);
        assert(a.drop_first().skip(i - 1) =~= a.skip(i));
        assert(b.drop_first().skip(i - 1) =~= b.skip(i));
    } else {
        assert(a.skip(0) =~= a);
        assert(b.skip(0) =~= b);
    }
}

// ── Stable order ─────────────────────────────────────────────────────────────

/// Element with key `ka` at original position `ia` comes before the element
/// with key `kb` at original position `ib` in a stable sort.
pub open spec fn precedes<K: SortKey>(ka: K, ia: int, kb: K, ib: int) -> bool {
    ka.key_lt(kb) || (!kb.key_lt(ka) && ia < ib)
}

/// `p` lists the positions `0..keys.len()` in stable key order.
pub open spec fn is_stable_perm<K: SortKey>(p: Seq<int>, keys: Seq<K>) -> bool {
    &&& p.len() == keys.len()
    &&& forall|i: int| 0 <= i < p.len() ==> 0 <= #[trigger] p[i] < keys.len()
    &&& forall|i: int, j: int|
        0 <= i < j < p.len() ==> precedes(keys[#[trigger] p[i]], p[i], keys[#[trigger] p[j]], p[j])
}

/// `out` is `inp` sorted stably by `keys` (`keys[i]` is the key of `inp[i]`):
/// ordered by key, and elements with equivalent keys keep their input order.
pub open spec fn is_stable_sort<T, K: SortKey>(out: Seq<T>, inp: Seq<T>, keys: Seq<K>) -> bool {
    exists|p: Seq<int>|
        {
            &&& is_stable_perm(p, keys)
            &&& out.len() == inp.len()
            &&& forall|i: int| 0 <= i < out.len() ==> out[i] == inp[#[trigger] p[i]]
        }
}

proof fn lemma_precedes_after_scan<K: SortKey>(ka: K, ia: int, kb: K, ib: int, kx: K, ix: int)
    requires
        precedes(ka, ia, kb, ib),
        !kx.key_lt(kb),
        ia < ix,
    ensures
        precedes(ka, ia, kx, ix),
{
    if kx.key_lt(ka) {
        K::lemma_cotransitive(kx, kb, ka);
        if kb.key_lt(ka) {
            if ka.key_lt(kb) {
                K::lemma_transitive(ka, kb, ka);
                K::lemma_irreflexive(ka);
            }
        }
    }
}

/// Sort `items` stably by `keys`, where `keys[i]` is the key of `items[i]`.
pub fn stable_sort<K: SortKey, T>(items: Vec<T>, keys: &Vec<K>) -> (r: Vec<T>)
    requires
        items@.len() == keys@.len(),
    ensures
        is_stable_sort(r@, items@, keys@),
{
    let ghost orig = items@;
    let n = items.len();
    let mut rest = items;
    let mut out: Vec<T> = Vec::new();
    let mut idx: Vec<usize> = Vec::new();
    let mut i: usize = 0;
    while i < n
        invariant
            n == orig.len(),
            n == keys@.len(),
            i <= n,
            rest@ == orig.subrange(i as int, n as int),
            out@.len() == i,
            idx@.len() == i,
            forall|a: int| 0 <= a < i ==> #[trigger] idx@[a] < i,
            forall|a: int| 0 <= a < i ==> out@[a] == orig[#[trigger] idx@[a] as int],
            forall|a: int, b: int|
                0 <= a < b < i ==> precedes(
                    keys@[#[trigger] idx@[a] as int],
                    idx@[a] as int,
                    keys@[#[trigger] idx@[b] as int],
                    idx@[b] as int,
                ),
        decreases n - i,
    {
        let x = rest.remove(0);
        assert(x == orig[i as int]);
        let mut pos: usize = i;
        while pos > 0 && keys[i].less(&keys[idx[pos - 1]])
            invariant
                n == keys@.len(),
                i < n,
                pos <= i,
                idx@.len() == i,
                forall|a: int| 0 <= a < i ==> #[trigger] idx@[a] < i,
                forall|q: int|
                    pos <= q < i ==> keys@[i as int].key_lt(keys@[#[trigger] idx@[q] as int]),
            decreases pos,
        {
            pos -= 1;
        }
        let ghost old_idx = idx@;
        let ghost old_out = out@;
        out.insert(pos, x);
        idx.insert(pos, i);
        proof {
            assert(idx@ == old_idx.insert(pos as int, i));
            assert forall|a: int| 0 <= a < i + 1 implies #[trigger] idx@[a] < i + 1 by {
                if a < pos {
                    assert(idx@[a] == old_idx[a]);
                } else if a > pos {
                    assert(idx@[a] == old_idx[a - 1]);
                }
            }
            assert forall|a: int| 0 <= a < i + 1 implies out@[a] == orig[
                #[trigger] idx@[a] as int
            ] by {
                if a < pos {
                    assert(idx@[a] == old_idx[a]);
                    assert(out@[a] == old_out[a]);
                } else if a > pos {
                    assert(idx@[a] == old_idx[a - 1]);
                    assert(out@[a] == old_out[a - 1]);
                }
            }
            assert forall|a: int, b: int| 0 <= a < b < i + 1 implies precedes(
                keys@[#[trigger] idx@[a] as int],
                idx@[a] as int,
                keys@[#[trigger] idx@[b] as int],
                idx@[b] as int,
            ) by {
                let ki = keys@[i as int];
                if b < pos {
                    assert(idx@[a] == old_idx[a]);
                    assert(idx@[b] == old_idx[b]);
                } else if a > pos {
                    assert(idx@[a] == old_idx[a - 1]);
                    assert(idx@[b] == old_idx[b - 1]);
                } else if a < pos && b > pos {
                    assert(idx@[a] == old_idx[a]);
                    assert(idx@[b] == old_idx[b - 1]);
                } else if b == pos {
                    // a < pos: the new element lands after `a`
                    assert(idx@[b] == i);
                    assert(idx@[a] == old_idx[a]);
                    let kp = keys@[old_idx[pos - 1] as int];
                    assert(!ki.key_lt(kp));
                    if a == pos - 1 {
                        let ka = keys@[old_idx[a] as int];
                        if ki.key_lt(ka) {
                        }
                        if ka.key_lt(ki) {
                        } else {
                            assert(old_idx[a] < i);
                        }
                    } else {
                        assert(precedes(
                            keys@[old_idx[a] as int],
                            old_idx[a] as int,
                            kp,
                            old_idx[pos - 1] as int,
                        ));
                        lemma_precedes_after_scan(
                            keys@[old_idx[a] as int],
                            old_idx[a] as int,
                            kp,
                            old_idx[pos - 1] as int,
                            ki,
                            i as int,
                        );
                    }
                } else {
                    // a == pos: the new element lands before `b`
                    assert(idx@[a] == i);
                    assert(idx@[b] == old_idx[b - 1]);
                    assert(ki.key_lt(keys@[old_idx[b - 1] as int]));
                }
            }
        }
        i += 1;
        proof {
            assert(rest@ =~= orig.subrange(i as int, n as int));
        }
    }
    proof {
        let p = idx@.map_values(|v: usize| v as int);
        assert(is_stable_perm(p, keys@));
        assert forall|a: int| 0 <= a < out@.len() implies out@[a] == orig[#[trigger] p[a]] by {
        }
    }
    out
}

/// `out` is `inp` sorted stably by the strict order `lt`: ordered by `lt`,
/// and elements that `lt` does not separate keep their input order.
pub open spec fn is_stable_sort_by<T>(out: Seq<T>, inp: Seq<T>, lt: spec_fn(T, T) -> bool) -> bool {
    exists|p: Seq<int>|
        {
            &&& p.len() == inp.len()
            &&& out.len() == inp.len()
            &&& forall|i: int| 0 <= i < p.len() ==> 0 <= #[trigger] p[i] < inp.len()
            &&& forall|i: int| 0 <= i < out.len() ==> out[i] == inp[#[trigger] p[i]]
            &&& forall|i: int, j: int|
                0 <= i < j < p.len() ==> {
                    ||| lt(inp[#[trigger] p[i]], inp[#[trigger] p[j]])
                    ||| (!lt(inp[p[j]], inp[p[i]]) && p[i] < p[j])
                }
        }
}

/// A stable sort by keys is a stable sort by any order the keys represent.
pub proof fn lemma_stable_sort_by_keys<K: SortKey, T>(
    out: Seq<T>,
    inp: Seq<T>,
    keys: Seq<K>,
    lt: spec_fn(T, T) -> bool,
)
    requires
        is_stable_sort(out, inp, keys),
        keys.len() == inp.len(),
        forall|i: int, j: int|
            0 <= i < inp.len() && 0 <= j < inp.len() ==> lt(inp[i], inp[j]) == keys[i].key_lt(
                keys[j],
            ),
    ensures
        is_stable_sort_by(out, inp, lt),
{
    let p = choose|p: Seq<int>|
        {
            &&& is_stable_perm(p, keys)
            &&& out.len() == inp.len()
            &&& forall|i: int| 0 <= i < out.len() ==> out[i] == inp[#[trigger] p[i]]
        };
    assert forall|i: int, j: int| 0 <= i < j < p.len() implies {
        ||| lt(inp[#[trigger] p[i]], inp[#[trigger] p[j]])
        ||| (!lt(inp[p[j]], inp[p[i]]) && p[i] < p[j])
    } by {
        assert(precedes(keys[p[i]], p[i], keys[p[j]], p[j]));
    }
}

// ── First-wins deduplication ─────────────────────────────────────────────────

/// `s` with every element dropped whose key already occurred earlier:
/// the first occurrence of each key wins, order is kept.
pub open spec fn dedup_first<T, K>(s: Seq<T>, key: spec_fn(T) -> K) -> Seq<T>
    decreases s.len(),
{
    if s.len() == 0 {
        s
    } else {
        let prev = dedup_first(s.drop_last(), key);
        if exists|j: int| 0 <= j < prev.len() && key(prev[j]) == key(s.last()) {
            prev
        } else {
            prev.push(s.last())
        }
    }
}

/// Deduplication keeps no two elements with the same key, and every kept
/// element comes from the input.
pub proof fn lemma_dedup_first_distinct<T, K>(s: Seq<T>, key: spec_fn(T) -> K)
    ensures
        forall|i: int, j: int|
            0 <= i < j < dedup_first(s, key).len() ==> key(#[trigger] dedup_first(s, key)[i]) != key(
                #[trigger] dedup_first(s, key)[j],
            ),
        dedup_first(s, key).len() <= s.len(),
    decreases s.len(),
{
    if s.len() > 0 {
        lemma_dedup_first_distinct(s.drop_last(), key);
        let prev = dedup_first(s.drop_last(), key);
        if !(exists|j: int| 0 <= j < prev.len() && key(prev[j]) == key(s.last())) {
            let d = prev.push(s.last());
            assert forall|i: int, j: int| 0 <= i < j < d.len() implies key(#[trigger] d[i]) != key(
                #[trigger] d[j],
            ) by {
                if j < prev.len() {
                    assert(d[i] == prev[i] && d[j] == prev[j]);
                } else {
                    assert(d[i] == prev[i]);
                }
            }
        }
    }
}

/// A sequence whose keys are already distinct is left as it is.
pub proof fn lemma_dedup_first_keeps_distinct<T, K>(s: Seq<T>, key: spec_fn(T) -> K)
    requires
        forall|i: int, j: int| 0 <= i < j < s.len() ==> key(#[trigger] s[i]) != key(#[trigger] s[j]),
    ensures
        dedup_first(s, key) == s,
    decreases s.len(),
{
    if s.len() > 0 {
        let p = s.drop_last();
        assert forall|i: int, j: int| 0 <= i < j < p.len() implies key(#[trigger] p[i]) != key(#[trigger] p[j]) by {
            assert(p[i] == s[i] && p[j] == s[j]);
        }
        lemma_dedup_first_keeps_distinct(p, key);
        assert(!(exists|j: int| 0 <= j < p.len() && key(p[j]) == key(s.last()))) by {
            assert forall|j: int| 0 <= j < p.len() implies key(p[j]) != key(s.last()) by {
                assert(p[j] == s[j]);
                assert(s.last() == s[s.len() - 1]);
            }
        }
        assert(p.push(s.last()) =~= s);
    }
}

/// Deduplicating twice is deduplicating once.
pub proof fn lemma_dedup_first_idempotent<T, K>(s: Seq<T>, key: spec_fn(T) -> K)
    ensures
        dedup_first(dedup_first(s, key), key) == dedup_first(s, key),
{
    lemma_dedup_first_distinct(s, key);
    lemma_dedup_first_keeps_distinct(dedup_first(s, key), key);
}

/// Deduplication by a key the element type carries.
pub trait DedupKey: Sized {
    type Key;

    spec fn dedup_key(self) -> Self::Key;

    fn same_key(&self, other: &Self) -> (r: bool)
        ensures
            r == (self.dedup_key() == other.dedup_key()),
    ;
}

/// `v` with later duplicates (by `dedup_key`) dropped; first occurrence wins.
pub fn dedup_first_exec<T: DedupKey>(v: Vec<T>) -> (r: Vec<T>)
    ensures
        r@ == dedup_first(v@, |x: T| x.dedup_key()),
{
    let ghost orig = v@;
    let n = v.len();
    let mut rest = v;
    let mut out: Vec<T> = Vec::new();
    let mut i: usize = 0;
    assert(orig.subrange(0, 0) =~= Seq::<T>::empty());
    while i < n
        invariant
            n == orig.len(),
            i <= n,
            rest@ == orig.subrange(i as int, n as int),
            out@ == dedup_first(orig.subrange(0, i as int), |y: T| y.dedup_key()),
        decreases n - i,
    {
        let x = rest.remove(0);
        assert(x == orig[i as int]);
        let mut found = false;
        let mut j: usize = 0;
        while j < out.len()
            invariant
                j <= out@.len(),
                found == exists|q: int| 0 <= q < j && out@[q].dedup_key() == x.dedup_key(),
            decreases out@.len() - j,
        {
            let same = out[j].same_key(&x);
            proof {
                if same {
                    assert(0 <= j < j + 1 && out@[j as int].dedup_key() == x.dedup_key());
                }
            }
            if same {
                found = true;
            }
            j += 1;
        }
        assert(found == exists|q: int| 0 <= q < out@.len() && out@[q].dedup_key() == x.dedup_key());
        proof {
            lemma_dedup_push(orig.subrange(0, i as int), x, |y: T| y.dedup_key());
            assert(orig.subrange(0, i + 1) =~= orig.subrange(0, i as int).push(x));
        }
        if !found {
            out.push(x);
        }
        i += 1;
        proof {
            assert(rest@ =~= orig.subrange(i as int, n as int));
        }
    }
    assert(orig.subrange(0, n as int) =~= orig);
    out
}

/// Concatenation of the lists in `v`, in order.
pub fn flatten_vecs<T>(v: Vec<Vec<T>>) -> (r: Vec<T>)
    ensures
        r@ == v@.map_values(|x: Vec<T>| x@).flatten(),
{
    let ghost orig = v@;
    let n = v.len();
    let mut rest = v;
    let mut out: Vec<T> = Vec::new();
    let mut i: usize = 0;
    assert(orig.subrange(0, 0).map_values(|y: Vec<T>| y@) =~= Seq::<Seq<T>>::empty());
    while i < n
        invariant
            n == orig.len(),
            i <= n,
            rest@ == orig.subrange(i as int, n as int),
            out@ == orig.subrange(0, i as int).map_values(|y: Vec<T>| y@).flatten(),
        decreases n - i,
    {
        let mut x = rest.remove(0);
        assert(x == orig[i as int]);
        proof {
            let s = orig.subrange(0, i as int).map_values(|y: Vec<T>| y@);
            s.lemma_flatten_push(x@);
            assert(orig.subrange(0, i + 1).map_values(|y: Vec<T>| y@) =~= s.push(x@)) by {
                assert(orig[i as int]@ == x@);
            }
        }
        out.append(&mut x);
        i += 1;
        proof {
            assert(rest@ =~= orig.subrange(i as int, n as int));
        }
    }
    assert(orig.subrange(0, n as int) =~= orig);
    out
}

/// One step of `dedup_first`: appending `x` to the input appends it to the
/// output exactly when its key is new.
pub proof fn lemma_dedup_push<T, K>(s: Seq<T>, x: T, key: spec_fn(T) -> K)
    ensures
        dedup_first(s.push(x), key) == if exists|j: int|
            0 <= j < dedup_first(s, key).len() && key(dedup_first(s, key)[j]) == key(x) {
            dedup_first(s, key)
        } else {
            dedup_first(s, key).push(x)
        },
{
    assert(s.push(x).drop_last() =~= s);
}

} // verus!
