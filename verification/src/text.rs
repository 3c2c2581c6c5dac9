//! Character-level text helpers with their mathematical models.
//!
//! Strings are modelled by their `Seq<char>` view.  Every helper here states
//! its result over that view, so the policies built on top can be stated over
//! plain sequences.
use vstd::prelude::*;

verus! {

/// Unicode `White_Space` property, the set `char::is_whitespace` tests.
pub open spec fn is_ws(c: char) -> bool {
    let n = c as u32;
    ||| (9 <= n && n <= 13)
    ||| n == 32
    ||| n == 0x85
    ||| n == 0xA0
    ||| n == 0x1680
    ||| (0x2000 <= n && n <= 0x200A)
    ||| n == 0x2028
    ||| n == 0x2029
    ||| n == 0x202F
    ||| n == 0x205F
    ||| n == 0x3000
}

/// Executable `char::is_whitespace`.
pub fn char_is_ws(c: char) -> (r: bool)
    ensures
        r == is_ws(c),
{
    let n = c as u32;
    (9 <= n && n <= 13) || n == 32 || n == 0x85 || n == 0xA0 || n == 0x1680 || (0x2000 <= n && n
        <= 0x200A) || n == 0x2028 || n == 0x2029 || n == 0x202F || n == 0x205F || n == 0x3000
}

/// `s` with leading whitespace removed.
pub open spec fn trim_start(s: Seq<char>) -> Seq<char>
    decreases s.len(),
{
    if s.len() > 0 && is_ws(s[0]) {
        trim_start(s.drop_first())
    } else {
        s
    }
}

/// `s` with trailing whitespace removed.
pub open spec fn trim_end(s: Seq<char>) -> Seq<char>
    decreases s.len(),
{
    if s.len() > 0 && is_ws(s.last()) {
        trim_end(s.drop_last())
    } else {
        s
    }
}

/// `str::trim`: both ends stripped of whitespace.
pub open spec fn trim(s: Seq<char>) -> Seq<char> {
    trim_end(trim_start(s))
}

proof fn lemma_trim_start_skip(s: Seq<char>, i: int)
    requires
        0 <= i <= s.len(),
        forall|k: int| 0 <= k < i ==> is_ws(#[trigger] s[k]),
    ensures
        trim_start(s) == trim_start(s.subrange(i, s.len() as int)),
    decreases i,
{
    if i > 0 {
        assert(s.drop_first() =~= s.subrange(1, s.len() as int));
        lemma_trim_start_skip(s.drop_first(), i - 1);
        assert(s.drop_first().subrange(i - 1, s.drop_first().len() as int) =~= s.subrange(
            i,
            s.len() as int,
        ));
    } else {
        assert(s.subrange(0, s.len() as int) =~= s);
    }
}

proof fn lemma_trim_end_skip(s: Seq<char>, j: int)
    requires
        0 <= j <= s.len(),
        forall|k: int| j <= k < s.len() ==> is_ws(#[trigger] s[k]),
    ensures
        trim_end(s) == trim_end(s.subrange(0, j)),
    decreases s.len() - j,
{
    if j < s.len() {
        lemma_trim_end_skip(s.drop_last(), j);
        assert(s.drop_last().subrange(0, j) =~= s.subrange(0, j));
    } else {
        assert(s.subrange(0, j) =~= s);
    }
}

/// The characters of `s`, one by one.
pub fn chars_of(s: &str) -> (v: Vec<char>)
    ensures
        v@ == s@,
{
    let n = s.unicode_len();
    let mut v: Vec<char> = Vec::new();
    let mut i: usize = 0;
    while i < n
        invariant
            n == s@.len(),
            i <= n,
            v@ == s@.subrange(0, i as int),
        decreases n - i,
    {
        let c = s.get_char(i);
        v.push(c);
        i = i + 1;
        assert(v@ =~= s@.subrange(0, i as int));
    }
    assert(v@ =~= s@);
    v
}

/// Appends one character to a `String` (`String::push`).
#[verifier::external_body]
pub(crate) fn string_push(s: &mut String, c: char)
    ensures
        final(s)@ == old(s)@.push(c),
{
    s.push(c);
}

/// Builds a `String` from `v[from..to]`.
pub fn string_from_range(v: &[char], from: usize, to: usize) -> (r: String)
    requires
        from <= to <= v@.len(),
    ensures
        r@ == v@.subrange(from as int, to as int),
{
    let mut r = String::new();
    let mut i = from;
    while i < to
        invariant
            from <= i <= to <= v@.len(),
            r@ == v@.subrange(from as int, i as int),
        decreases to - i,
    {
        string_push(&mut r, v[i]);
        i = i + 1;
        assert(r@ =~= v@.subrange(from as int, i as int));
    }
    r
}

/// Bounds `(i, j)` of the trimmed part of `v`.
pub fn trim_bounds(v: &[char]) -> (r: (usize, usize))
    ensures
        r.0 <= r.1 <= v@.len(),
        v@.subrange(r.0 as int, r.1 as int) == trim(v@),
{
    let n = v.len();
    let mut i: usize = 0;
    while i < n && char_is_ws(v[i])
        invariant
            n == v@.len(),
            i <= n,
            forall|k: int| 0 <= k < i ==> is_ws(#[trigger] v@[k]),
        decreases n - i,
    {
        i = i + 1;
    }
    proof {
        lemma_trim_start_skip(v@, i as int);
        let t = v@.subrange(i as int, n as int);
        if i < n {
            assert(!is_ws(t[0]));
        }
        assert(trim_start(t) == t);
    }
    let mut j: usize = n;
    while j > i && char_is_ws(v[j - 1])
        invariant
            n == v@.len(),
            i <= j <= n,
            forall|k: int| j <= k < n ==> is_ws(#[trigger] v@[k]),
        decreases j,
    {
        j = j - 1;
    }
    proof {
        let t = v@.subrange(i as int, n as int);
        assert forall|k: int| (j - i) <= k < t.len() implies is_ws(#[trigger] t[k]) by {
            assert(t[k] == v@[k + i]);
        }
        lemma_trim_end_skip(t, j - i);
        let u = t.subrange(0, j - i);
        assert(u =~= v@.subrange(i as int, j as int));
        if j > i {
            assert(!is_ws(u.last()));
        }
        assert(trim_end(u) == u);
    }
    (i, j)
}

/// `str::trim`, borrowing from `s`.
pub fn trim_str(s: &str) -> (r: &str)
    ensures
        r@ == trim(s@),
{
    let v = chars_of(s);
    let (i, j) = trim_bounds(v.as_slice());
    s.substring_char(i, j)
}

/// `str::trim` followed by `to_string`.
pub fn trim_string(s: &str) -> (r: String)
    ensures
        r@ == trim(s@),
{
    let v = chars_of(s);
    let (i, j) = trim_bounds(v.as_slice());
    string_from_range(v.as_slice(), i, j)
}


// ───────────────────────── comparison and search ─────────────────────────

/// `p` occurs in `s` starting at index `i`.
pub open spec fn occurs_at(s: Seq<char>, p: Seq<char>, i: int) -> bool {
    0 <= i && i + p.len() <= s.len() && s.subrange(i, i + p.len()) == p
}

/// `str::contains` with a string pattern.
pub open spec fn contains(s: Seq<char>, p: Seq<char>) -> bool {
    exists|i: int| occurs_at(s, p, i)
}

/// `str::starts_with` with a string pattern.
pub open spec fn starts_with(s: Seq<char>, p: Seq<char>) -> bool {
    occurs_at(s, p, 0)
}

/// `str::ends_with` with a string pattern.
pub open spec fn ends_with(s: Seq<char>, p: Seq<char>) -> bool {
    occurs_at(s, p, s.len() - p.len())
}

/// The index of the first occurrence of `p` in `s` (meaningful when `p` occurs).
pub open spec fn first_index(s: Seq<char>, p: Seq<char>) -> int {
    choose|i: int| occurs_at(s, p, i) && forall|k: int| 0 <= k < i ==> !occurs_at(s, p, k)
}

/// The index of the last occurrence of `p` in `s` (meaningful when `p` occurs).
pub open spec fn last_index(s: Seq<char>, p: Seq<char>) -> int {
    choose|i: int| occurs_at(s, p, i) && forall|k: int| i < k <= s.len() ==> !occurs_at(s, p, k)
}

/// Whether `v[i..]` begins with `p`.
pub fn matches_at(v: &[char], p: &[char], i: usize) -> (r: bool)
    ensures
        r == occurs_at(v@, p@, i as int),
{
    if i > v.len() || p.len() > v.len() - i {
        return false;
    }
    let mut k: usize = 0;
    while k < p.len()
        invariant
            i + p@.len() <= v@.len(),
            v@.len() == v.len(),
            p@.len() == p.len(),
            k <= p@.len(),
            forall|t: int| 0 <= t < k ==> v@[i + t] == p@[t],
        decreases p.len() - k,
    {
        if v[i + k] != p[k] {
            assert(v@.subrange(i as int, i + p@.len())[k as int] != p@[k as int]);
            return false;
        }
        k = k + 1;
    }
    assert(v@.subrange(i as int, i + p@.len()) =~= p@);
    true
}

/// Equality of two character sequences.
pub fn chars_eq(a: &[char], b: &[char]) -> (r: bool)
    ensures
        r == (a@ == b@),
{
    if a.len() != b.len() {
        return false;
    }
    let r = matches_at(a, b, 0);
    proof {
        if r {
            assert(a@.subrange(0, b@.len() as int) =~= a@);
        } else {
            assert(a@.subrange(0, b@.len() as int) =~= a@);
        }
    }
    r
}

/// Whether the characters `v` spell `s`.
pub fn chars_is(v: &[char], s: &str) -> (r: bool)
    ensures
        r == (v@ == s@),
{
    let w = chars_of(s);
    chars_eq(v, w.as_slice())
}

/// The value of the first pair of `m` whose key is `key`.
pub open spec fn str_map_get(m: Seq<(Seq<char>, Seq<char>)>, key: Seq<char>) -> Option<Seq<char>>
    decreases m.len(),
{
    if m.len() == 0 {
        None
    } else if m[0].0 == key {
        Some(m[0].1)
    } else {
        str_map_get(m.drop_first(), key)
    }
}

/// Index of the first pair of `m` whose key spells `key`.
pub fn str_pairs_find(m: &[(String, String)], key: &[char]) -> (r: Option<usize>)
    ensures
        match r {
            Some(i) => i < m@.len() && m@[i as int].0@ == key@ && str_map_get(m.deep_view(), key@)
                == Some(m@[i as int].1@),
            None => str_map_get(m.deep_view(), key@) is None,
        },
{
    let ghost d = m.deep_view();
    assert(d.subrange(0, d.len() as int) =~= d);
    let mut i: usize = 0;
    while i < m.len()
        invariant
            i <= m@.len(),
            d == m.deep_view(),
            d.len() == m@.len(),
            forall|j: int| 0 <= j < m@.len() ==> #[trigger] d[j] == (m@[j].0@, m@[j].1@),
            str_map_get(d, key@) == str_map_get(d.subrange(i as int, d.len() as int), key@),
        decreases m.len() - i,
    {
        assert(d.subrange(i as int, d.len() as int).drop_first() =~= d.subrange(i + 1, d.len() as int));
        assert(d.subrange(i as int, d.len() as int)[0] == d[i as int]);
        let k = chars_of(m[i].0.as_str());
        if chars_eq(k.as_slice(), key) {
            return Some(i);
        }
        i = i + 1;
    }
    assert(d.subrange(i as int, d.len() as int).len() == 0);
    None
}

/// The two sides of `s` around the first `c`.
pub open spec fn split_once_model(s: Seq<char>, c: char) -> Option<(Seq<char>, Seq<char>)> {
    if contains(s, seq![c]) {
        let i = first_index(s, seq![c]);
        Some((s.subrange(0, i), s.subrange(i + 1, s.len() as int)))
    } else {
        None
    }
}

/// `split_once` at the first `c`, as owned character vectors.
pub fn split_once_at(v: &[char], c: char) -> (r: Option<(Vec<char>, Vec<char>)>)
    ensures
        match r {
            Some((a, b)) => split_once_model(v@, c) == Some((a@, b@)),
            None => split_once_model(v@, c) is None,
        },
{
    let p: Vec<char> = vec![c];
    assert(p@ =~= seq![c]);
    match chars_find(v, p.as_slice()) {
        Some(i) => {
            assert(occurs_at(v@, p@, i as int));
            let n = v.len();
            assert(i + 1 <= n);
            let a = slice_range(v, 0, i);
            let b = slice_range(v, i + 1, n);
            proof {
                assert(contains(v@, seq![c]));
            }
            Some((a, b))
        },
        None => None,
    }
}

/// `trim` of a character slice.
pub fn trim_vec(v: &[char]) -> (r: Vec<char>)
    ensures
        r@ == trim(v@),
{
    let (i, j) = trim_bounds(v);
    slice_range(v, i, j)
}

/// Equality of two strings by their characters.
pub fn str_eq(a: &str, b: &str) -> (r: bool)
    ensures
        r == (a@ == b@),
{
    let va = chars_of(a);
    let vb = chars_of(b);
    chars_eq(va.as_slice(), vb.as_slice())
}

/// `str::starts_with`.
pub fn chars_starts_with(v: &[char], p: &[char]) -> (r: bool)
    ensures
        r == starts_with(v@, p@),
{
    matches_at(v, p, 0)
}

/// `str::ends_with`.
pub fn chars_ends_with(v: &[char], p: &[char]) -> (r: bool)
    ensures
        r == ends_with(v@, p@),
{
    if p.len() > v.len() {
        return false;
    }
    matches_at(v, p, v.len() - p.len())
}

proof fn lemma_first_index_unique(s: Seq<char>, p: Seq<char>, i: int)
    requires
        occurs_at(s, p, i),
        forall|k: int| 0 <= k < i ==> !occurs_at(s, p, k),
    ensures
        first_index(s, p) == i,
{
    let j = first_index(s, p);
    assert(occurs_at(s, p, j) && forall|k: int| 0 <= k < j ==> !occurs_at(s, p, k));
    if j < i {
        assert(!occurs_at(s, p, j));
    } else if j > i {
        assert(!occurs_at(s, p, i));
    }
}

proof fn lemma_last_index_unique(s: Seq<char>, p: Seq<char>, i: int)
    requires
        occurs_at(s, p, i),
        forall|k: int| i < k <= s.len() ==> !occurs_at(s, p, k),
    ensures
        last_index(s, p) == i,
{
    let j = last_index(s, p);
    assert(occurs_at(s, p, j) && forall|k: int| j < k <= s.len() ==> !occurs_at(s, p, k));
    if j < i {
        assert(!occurs_at(s, p, i));
    } else if j > i {
        assert(!occurs_at(s, p, j));
    }
}

/// `str::find`: the first index at which `p` occurs.
pub fn chars_find(v: &[char], p: &[char]) -> (r: Option<usize>)
    ensures
        r matches Some(i) ==> occurs_at(v@, p@, i as int) && forall|k: int|
            0 <= k < i ==> !occurs_at(v@, p@, k),
        r matches Some(i) ==> i == first_index(v@, p@),
        r is None ==> !contains(v@, p@),
{
    let mut i: usize = 0;
    while i < v.len()
        invariant
            i <= v@.len(),
            forall|k: int| 0 <= k < i ==> !occurs_at(v@, p@, k),
        decreases v.len() - i,
    {
        if matches_at(v, p, i) {
            proof { lemma_first_index_unique(v@, p@, i as int); }
            return Some(i);
        }
        i = i + 1;
    }
    if matches_at(v, p, i) {
        proof { lemma_first_index_unique(v@, p@, i as int); }
        return Some(i);
    }
    proof {
        assert forall|k: int| !occurs_at(v@, p@, k) by {
            if 0 <= k && k + p@.len() <= v@.len() {
                assert(k <= v@.len());
            }
        }
    }
    None
}

/// `str::rfind`: the last index at which `p` occurs.
pub fn chars_rfind(v: &[char], p: &[char]) -> (r: Option<usize>)
    ensures
        r matches Some(i) ==> occurs_at(v@, p@, i as int) && forall|k: int|
            i < k <= v@.len() ==> !occurs_at(v@, p@, k),
        r matches Some(i) ==> i == last_index(v@, p@),
        r is None ==> !contains(v@, p@),
{
    let mut i: usize = v.len();
    while i > 0
        invariant
            i <= v@.len(),
            forall|k: int| i < k <= v@.len() ==> !occurs_at(v@, p@, k),
        decreases i,
    {
        if matches_at(v, p, i) {
            proof { lemma_last_index_unique(v@, p@, i as int); }
            return Some(i);
        }
        i = i - 1;
    }
    if matches_at(v, p, 0) {
        proof { lemma_last_index_unique(v@, p@, 0); }
        return Some(0);
    }
    proof {
        assert forall|k: int| !occurs_at(v@, p@, k) by {
            if 0 <= k && k + p@.len() <= v@.len() {
                assert(k <= v@.len());
            }
        }
    }
    None
}

/// `str::contains`.
pub fn chars_contains(v: &[char], p: &[char]) -> (r: bool)
    ensures
        r == contains(v@, p@),
{
    chars_find(v, p).is_some()
}

/// `str::contains` on two strings.
pub fn str_contains(s: &str, p: &str) -> (r: bool)
    ensures
        r == contains(s@, p@),
{
    let v = chars_of(s);
    let w = chars_of(p);
    chars_contains(v.as_slice(), w.as_slice())
}

/// `str::starts_with` on two strings.
pub fn str_starts_with(s: &str, p: &str) -> (r: bool)
    ensures
        r == starts_with(s@, p@),
{
    let v = chars_of(s);
    let w = chars_of(p);
    chars_starts_with(v.as_slice(), w.as_slice())
}

/// Lexicographic order on characters by code point (`str::cmp`, since UTF-8
/// byte order is code-point order): `a < b`.
pub open spec fn seq_lt(a: Seq<char>, b: Seq<char>) -> bool {
    exists|k: int|
        0 <= k <= a.len() && k <= b.len() && a.subrange(0, k) == b.subrange(0, k) && ((k == a.len()
            && k < b.len()) || (k < a.len() && k < b.len() && (a[k] as u32) < (b[k] as u32)))
}

/// `a < b` in lexicographic code-point order.
pub fn chars_lt(a: &[char], b: &[char]) -> (r: bool)
    ensures
        r == seq_lt(a@, b@),
{
    let n = if a.len() < b.len() {
        a.len()
    } else {
        b.len()
    };
    let mut k: usize = 0;
    while k < n && a[k] == b[k]
        invariant
            n <= a@.len(),
            n <= b@.len(),
            k <= n,
            a@.subrange(0, k as int) == b@.subrange(0, k as int),
        decreases n - k,
    {
        proof {
            assert(a@.subrange(0, k + 1) =~= a@.subrange(0, k as int).push(a@[k as int]));
            assert(b@.subrange(0, k + 1) =~= b@.subrange(0, k as int).push(b@[k as int]));
        }
        k = k + 1;
    }
    let r = if k < n {
        (a[k] as u32) < (b[k] as u32)
    } else {
        k == a.len() && k < b.len()
    };
    proof {
        if r {
            assert(0 <= k <= a@.len() && k <= b@.len());
        } else {
            assert forall|j: int|
                !(0 <= j <= a@.len() && j <= b@.len() && a@.subrange(0, j) == b@.subrange(0, j) && ((
                j == a@.len() && j < b@.len()) || (j < a@.len() && j < b@.len() && (a@[j] as u32) < (
                b@[j] as u32)))) by {
                if 0 <= j <= a@.len() && j <= b@.len() && a@.subrange(0, j) == b@.subrange(0, j) {
                    if j < k {
                        assert(a@[j] == a@.subrange(0, k as int)[j]);
                        assert(b@[j] == b@.subrange(0, k as int)[j]);
                    } else if j > k {
                        assert(a@[k as int] == a@.subrange(0, j)[k as int]);
                        assert(b@[k as int] == b@.subrange(0, j)[k as int]);
                    }
                }
            }
        }
    }
    r
}

/// `seq_lt` never holds of a sequence and itself.
pub proof fn lemma_lt_irreflexive(a: Seq<char>)
    ensures
        !seq_lt(a, a),
{
}

proof fn lemma_lt_total_from(a: Seq<char>, b: Seq<char>, k: int)
    requires
        0 <= k <= a.len(),
        k <= b.len(),
        a.subrange(0, k) == b.subrange(0, k),
    ensures
        a == b || seq_lt(a, b) || seq_lt(b, a),
    decreases a.len() - k,
{
    if k == a.len() && k == b.len() {
        assert(a =~= a.subrange(0, k));
        assert(b =~= b.subrange(0, k));
    } else if k == a.len() {
        assert(0 <= k <= a.len() && k <= b.len() && a.subrange(0, k) == b.subrange(0, k) && (k == a.len()
            && k < b.len()));
    } else if k == b.len() {
        assert(0 <= k <= b.len() && k <= a.len() && b.subrange(0, k) == a.subrange(0, k) && (k == b.len()
            && k < a.len()));
    } else if a[k] == b[k] {
        assert(a.subrange(0, k + 1) =~= a.subrange(0, k).push(a[k]));
        assert(b.subrange(0, k + 1) =~= b.subrange(0, k).push(b[k]));
        lemma_lt_total_from(a, b, k + 1);
    } else if (a[k] as u32) < (b[k] as u32) {
        assert(0 <= k <= a.len() && k <= b.len() && a.subrange(0, k) == b.subrange(0, k) && (k < a.len()
            && k < b.len() && (a[k] as u32) < (b[k] as u32)));
    } else {
        let ca = a[k];
        let cb = b[k];
        vstd::utf8::char_u32_cast(ca, ca as u32);
        vstd::utf8::char_u32_cast(cb, cb as u32);
        assert((cb as u32) < (ca as u32));
        assert(0 <= k <= b.len() && k <= a.len() && b.subrange(0, k) == a.subrange(0, k) && (k < b.len()
            && k < a.len() && (b[k] as u32) < (a[k] as u32)));
    }
}

/// Two different sequences are ordered one way or the other.
pub proof fn lemma_lt_total(a: Seq<char>, b: Seq<char>)
    ensures
        a == b || seq_lt(a, b) || seq_lt(b, a),
{
    assert(a.subrange(0, 0) =~= b.subrange(0, 0));
    lemma_lt_total_from(a, b, 0);
}

/// `seq_lt` is transitive.
pub proof fn lemma_lt_transitive(a: Seq<char>, b: Seq<char>, c: Seq<char>)
    requires
        seq_lt(a, b),
        seq_lt(b, c),
    ensures
        seq_lt(a, c),
{
    let k1 = choose|k: int|
        0 <= k <= a.len() && k <= b.len() && a.subrange(0, k) == b.subrange(0, k) && ((k == a.len() && k
            < b.len()) || (k < a.len() && k < b.len() && (a[k] as u32) < (b[k] as u32)));
    let k2 = choose|k: int|
        0 <= k <= b.len() && k <= c.len() && b.subrange(0, k) == c.subrange(0, k) && ((k == b.len() && k
            < c.len()) || (k < b.len() && k < c.len() && (b[k] as u32) < (c[k] as u32)));
    if k1 <= k2 {
        assert(a.subrange(0, k1) =~= c.subrange(0, k1)) by {
            assert forall|j: int| 0 <= j < k1 implies a[j] == c[j] by {
                assert(a[j] == a.subrange(0, k1)[j]);
                assert(b[j] == b.subrange(0, k1)[j]);
                assert(b[j] == b.subrange(0, k2)[j]);
                assert(c[j] == c.subrange(0, k2)[j]);
            }
        }
        if k1 < k2 {
            assert(b[k1] == b.subrange(0, k2)[k1]);
            assert(c[k1] == c.subrange(0, k2)[k1]);
        }
        assert(0 <= k1 <= a.len() && k1 <= c.len() && a.subrange(0, k1) == c.subrange(0, k1) && ((k1
            == a.len() && k1 < c.len()) || (k1 < a.len() && k1 < c.len() && (a[k1] as u32) < (
        c[k1] as u32))));
    } else {
        assert(a.subrange(0, k2) =~= c.subrange(0, k2)) by {
            assert forall|j: int| 0 <= j < k2 implies a[j] == c[j] by {
                assert(a[j] == a.subrange(0, k1)[j]);
                assert(b[j] == b.subrange(0, k1)[j]);
                assert(b[j] == b.subrange(0, k2)[j]);
                assert(c[j] == c.subrange(0, k2)[j]);
            }
        }
        assert(a[k2] == a.subrange(0, k1)[k2]);
        assert(b[k2] == b.subrange(0, k1)[k2]);
        assert(0 <= k2 <= a.len() && k2 <= c.len() && a.subrange(0, k2) == c.subrange(0, k2) && (k2
            < a.len() && k2 < c.len() && (a[k2] as u32) < (c[k2] as u32)));
    }
}

/// The character sequences of `v`.
pub open spec fn string_views(v: Seq<String>) -> Seq<Seq<char>> {
    v.map_values(|s: String| s@)
}

/// Each element is below every later one: sorted, without repeats.
pub open spec fn strictly_sorted(s: Seq<Seq<char>>) -> bool {
    forall|i: int, j: int| 0 <= i < j < s.len() ==> seq_lt(s[i], s[j])
}

/// Inserts `x` into the strictly sorted `out` at its place, unless it is
/// already there: `Vec::sort` followed by `Vec::dedup`, one element at a
/// time.
pub fn insert_sorted_unique(out: &mut Vec<String>, x: String)
    requires
        strictly_sorted(string_views(old(out)@)),
    ensures
        strictly_sorted(string_views(final(out)@)),
        forall|s: Seq<char>|
            string_views(final(out)@).contains(s) <==> (string_views(old(out)@).contains(s) || s == x@),
{
    let ghost o = string_views(out@);
    let xv = chars_of(x.as_str());
    let n = out.len();
    let mut p: usize = 0;
    while p < n && chars_lt(chars_of(out[p].as_str()).as_slice(), xv.as_slice())
        invariant
            p <= n,
            n == out@.len(),
            o == string_views(out@),
            xv@ == x@,
            forall|i: int| 0 <= i < p ==> seq_lt(o[i], x@),
        decreases n - p,
    {
        p = p + 1;
    }
    if p < n && chars_eq(chars_of(out[p].as_str()).as_slice(), xv.as_slice()) {
        assert(o[p as int] == x@);
        assert forall|s: Seq<char>| o.contains(s) <==> (o.contains(s) || s == x@) by {
            if s == x@ {
                assert(o[p as int] == s);
            }
        }
        return;
    }
    proof {
        if p < n {
            lemma_lt_total(o[p as int], x@);
        }
    }
    out.insert(p, x);
    let ghost nv = string_views(out@);
    assert(nv =~= o.insert(p as int, x@));
    assert forall|i: int, j: int| 0 <= i < j < nv.len() implies seq_lt(nv[i], nv[j]) by {
        if j < p {
        } else if j == p {
        } else if i < p {
        } else if i == p {
            if j > p + 1 {
                lemma_lt_transitive(x@, o[p as int], o[j - 1]);
            }
        } else {
        }
    }
    assert forall|s: Seq<char>| nv.contains(s) <==> (o.contains(s) || s == x@) by {
        if nv.contains(s) {
            let k = choose|k: int| 0 <= k < nv.len() && nv[k] == s;
            if k < p {
                assert(o[k] == s);
            } else if k > p {
                assert(o[k - 1] == s);
            }
        }
        if o.contains(s) {
            let k = choose|k: int| 0 <= k < o.len() && o[k] == s;
            if k < p {
                assert(nv[k] == s);
            } else {
                assert(nv[k + 1] == s);
            }
        }
        if s == x@ {
            assert(nv[p as int] == s);
        }
    }
}

/// `s` with its first occurrence of `p` replaced by `r`
/// (`str::replacen(p, r, 1)`).
pub open spec fn replace_first(s: Seq<char>, p: Seq<char>, r: Seq<char>) -> Seq<char> {
    if contains(s, p) {
        s.subrange(0, first_index(s, p)) + r + s.subrange(first_index(s, p) + p.len(), s.len() as int)
    } else {
        s
    }
}

/// `s.replacen(p, r, 1)`.
pub fn replacen_once(s: &str, p: &str, r: &str) -> (out: String)
    ensures
        out@ == replace_first(s@, p@, r@),
{
    let v = chars_of(s);
    let w = chars_of(p);
    match chars_find(v.as_slice(), w.as_slice()) {
        Some(i) => {
            assert(occurs_at(v@, w@, i as int));
            proof {
                assert(contains(v@, w@));
            }
            let n = v.len();
            let m = w.len();
            assert(i + m <= n);
            let head = slice_range(v.as_slice(), 0, i);
            let tail = slice_range(v.as_slice(), i + m, n);
            let mut out = string_from_chars(head.as_slice());
            string_append(&mut out, r);
            let t = string_from_chars(tail.as_slice());
            string_append(&mut out, t.as_str());
            out
        },
        None => to_owned_string(s),
    }
}

// ───────────────────────── ASCII case ─────────────────────────

/// `char::to_ascii_lowercase`.
pub open spec fn lower_char(c: char) -> char {
    if 65 <= c as u32 && c as u32 <= 90 {
        ((c as u32) + 32) as char
    } else {
        c
    }
}

/// `str::to_ascii_lowercase`.
pub open spec fn ascii_lower(s: Seq<char>) -> Seq<char> {
    s.map_values(|c: char| lower_char(c))
}

/// `str::eq_ignore_ascii_case`.
pub open spec fn eq_ignore_case(a: Seq<char>, b: Seq<char>) -> bool {
    ascii_lower(a) == ascii_lower(b)
}

/// Executable `char::to_ascii_lowercase`.
pub fn char_lower(c: char) -> (r: char)
    ensures
        r == lower_char(c),
{
    if 'A' <= c && c <= 'Z' {
        let b = (c as u8) + 32;
        b as char
    } else {
        c
    }
}

/// Executable `to_ascii_lowercase` over characters.
pub fn chars_ascii_lower(v: &[char]) -> (r: Vec<char>)
    ensures
        r@ == ascii_lower(v@),
{
    let mut r: Vec<char> = Vec::new();
    let mut i: usize = 0;
    while i < v.len()
        invariant
            i <= v@.len(),
            r@ == ascii_lower(v@.subrange(0, i as int)),
        decreases v.len() - i,
    {
        let c = char_lower(v[i]);
        r.push(c);
        i = i + 1;
        assert(r@ =~= ascii_lower(v@.subrange(0, i as int)));
    }
    assert(v@.subrange(0, v@.len() as int) =~= v@);
    r
}

/// `char::to_ascii_uppercase`.
pub open spec fn upper_char(c: char) -> char {
    if 97 <= c as u32 && c as u32 <= 122 {
        ((c as u32) - 32) as char
    } else {
        c
    }
}

/// `str::to_ascii_uppercase`.
pub open spec fn ascii_upper(s: Seq<char>) -> Seq<char> {
    s.map_values(|c: char| upper_char(c))
}

/// Executable `char::to_ascii_uppercase`.
pub fn char_upper(c: char) -> (r: char)
    ensures
        r == upper_char(c),
{
    if 'a' <= c && c <= 'z' {
        let b = (c as u8) - 32;
        b as char
    } else {
        c
    }
}

/// Executable `str::to_ascii_uppercase` on characters.
pub fn chars_ascii_upper(v: &[char]) -> (r: Vec<char>)
    ensures
        r@ == ascii_upper(v@),
{
    let mut r: Vec<char> = Vec::new();
    let mut i: usize = 0;
    while i < v.len()
        invariant
            i <= v@.len(),
            r@ == ascii_upper(v@.subrange(0, i as int)),
        decreases v.len() - i,
    {
        let c = char_upper(v[i]);
        r.push(c);
        i = i + 1;
        assert(r@ =~= ascii_upper(v@.subrange(0, i as int)));
    }
    assert(v@.subrange(0, v@.len() as int) =~= v@);
    r
}

/// Executable `str::eq_ignore_ascii_case`.
pub fn chars_eq_ignore_case(a: &[char], b: &[char]) -> (r: bool)
    ensures
        r == eq_ignore_case(a@, b@),
{
    let la = chars_ascii_lower(a);
    let lb = chars_ascii_lower(b);
    chars_eq(la.as_slice(), lb.as_slice())
}

/// `s.trim()` as characters.
pub fn trim_chars(s: &str) -> (r: Vec<char>)
    ensures
        r@ == trim(s@),
{
    let v = chars_of(s);
    let (i, j) = trim_bounds(v.as_slice());
    slice_range(v.as_slice(), i, j)
}

/// `s.trim().to_ascii_lowercase()` as characters.
pub fn trim_lower_chars(s: &str) -> (r: Vec<char>)
    ensures
        r@ == ascii_lower(trim(s@)),
{
    let v = chars_of(s);
    let (i, j) = trim_bounds(v.as_slice());
    let t = slice_range(v.as_slice(), i, j);
    chars_ascii_lower(t.as_slice())
}

/// `v[from..to]` as an owned vector.
pub fn slice_range(v: &[char], from: usize, to: usize) -> (r: Vec<char>)
    requires
        from <= to <= v@.len(),
    ensures
        r@ == v@.subrange(from as int, to as int),
{
    let mut r: Vec<char> = Vec::new();
    let mut i = from;
    while i < to
        invariant
            from <= i <= to <= v@.len(),
            r@ == v@.subrange(from as int, i as int),
        decreases to - i,
    {
        r.push(v[i]);
        i = i + 1;
        assert(r@ =~= v@.subrange(from as int, i as int));
    }
    r
}

/// Builds a `String` from all of `v`.
pub fn string_from_chars(v: &[char]) -> (r: String)
    ensures
        r@ == v@,
{
    let r = string_from_range(v, 0, v.len());
    assert(v@.subrange(0, v@.len() as int) =~= v@);
    r
}

/// Appends all characters of `p` to `s`.
pub fn string_append(s: &mut String, p: &str)
    ensures
        final(s)@ == old(s)@ + p@,
{
    let v = chars_of(p);
    let mut i: usize = 0;
    while i < v.len()
        invariant
            i <= v@.len(),
            v@ == p@,
            s@ == old(s)@ + p@.subrange(0, i as int),
        decreases v.len() - i,
    {
        string_push(s, v[i]);
        i = i + 1;
        assert(s@ =~= old(s)@ + p@.subrange(0, i as int));
    }
    assert(p@.subrange(0, p@.len() as int) =~= p@);
}

/// An owned copy of `s`.
pub fn to_owned_string(s: &str) -> (r: String)
    ensures
        r@ == s@,
{
    let v = chars_of(s);
    string_from_chars(v.as_slice())
}


// ───────────────────────── decimal numbers ─────────────────────────

/// An ASCII decimal digit.
pub open spec fn is_digit(c: char) -> bool {
    48 <= c as u32 && c as u32 <= 57
}

/// The value of an ASCII decimal digit.
pub open spec fn digit_val(c: char) -> nat {
    (c as u32 - 48) as nat
}

/// Every character of `s` is an ASCII digit.
pub open spec fn all_digits(s: Seq<char>) -> bool {
    forall|i: int| 0 <= i < s.len() ==> is_digit(#[trigger] s[i])
}

/// The number written by the digits `s` (most significant first).
pub open spec fn dec_value(s: Seq<char>) -> nat
    decreases s.len(),
{
    if s.len() == 0 {
        0
    } else {
        dec_value(s.drop_last()) * 10 + digit_val(s.last())
    }
}

/// `<uN as FromStr>::from_str` for an unsigned type whose maximum is `max`:
/// an optional `+`, then at least one ASCII digit and nothing else.
pub open spec fn parse_unsigned(s: Seq<char>, max: nat) -> Option<nat> {
    let body = if s.len() > 0 && s[0] == '+' {
        s.drop_first()
    } else {
        s
    };
    if body.len() > 0 && all_digits(body) && dec_value(body) <= max {
        Some(dec_value(body))
    } else {
        None
    }
}

/// `<iN as FromStr>::from_str` for a signed type with range `[min, max]`:
/// an optional sign, then at least one ASCII digit and nothing else.
pub open spec fn parse_signed(s: Seq<char>, min: int, max: int) -> Option<int> {
    let neg = s.len() > 0 && s[0] == '-';
    let body = if s.len() > 0 && (s[0] == '+' || s[0] == '-') {
        s.drop_first()
    } else {
        s
    };
    let v: int = if neg {
        -dec_value(body)
    } else {
        dec_value(body) as int
    };
    if body.len() > 0 && all_digits(body) && min <= v && v <= max {
        Some(v)
    } else {
        None
    }
}

proof fn lemma_dec_value_prefix_mono(s: Seq<char>, i: int, j: int)
    requires
        0 <= i <= j <= s.len(),
    ensures
        dec_value(s.subrange(0, i)) <= dec_value(s.subrange(0, j)),
    decreases j - i,
{
    if i < j {
        lemma_dec_value_prefix_mono(s, i, j - 1);
        let t = s.subrange(0, j);
        assert(t.drop_last() =~= s.subrange(0, j - 1));
        assert(dec_value(t) == dec_value(s.subrange(0, j - 1)) * 10 + digit_val(t.last()));
    }
}

/// The value of the digits `v[from..to]` when they are all digits and the
/// value is at most `max`; `None` otherwise.
pub fn parse_digits(v: &[char], from: usize, to: usize, max: u64) -> (r: Option<u64>)
    requires
        from <= to <= v@.len(),
    ensures
        r == (if all_digits(v@.subrange(from as int, to as int)) && dec_value(
            v@.subrange(from as int, to as int),
        ) <= max {
            Some(dec_value(v@.subrange(from as int, to as int)) as u64)
        } else {
            None::<u64>
        }),
{
    let ghost t = v@.subrange(from as int, to as int);
    let mut acc: u64 = 0;
    let mut i = from;
    while i < to
        invariant
            from <= i <= to <= v@.len(),
            t == v@.subrange(from as int, to as int),
            all_digits(t.subrange(0, i - from)),
            acc == dec_value(t.subrange(0, i - from)),
            acc <= max,
        decreases to - i,
    {
        let c = v[i];
        let cn = c as u32;
        if !(48 <= cn && cn <= 57) {
            proof {
                assert(!is_digit(t[i - from]));
            }
            return None;
        }
        let d = (cn - 48) as u64;
        let next: u128 = (acc as u128) * 10 + (d as u128);
        proof {
            let u = t.subrange(0, i - from + 1);
            assert(u.drop_last() =~= t.subrange(0, i - from));
            assert(u.last() == c);
            assert(dec_value(u) == dec_value(t.subrange(0, i - from)) * 10 + digit_val(c));
        }
        if next > max as u128 {
            proof {
                lemma_dec_value_prefix_mono(t, i - from + 1, t.len() as int);
                assert(t.subrange(0, t.len() as int) =~= t);
            }
            return None;
        }
        acc = next as u64;
        i = i + 1;
        proof {
            assert forall|k: int| 0 <= k < i - from implies is_digit(
                #[trigger] t.subrange(0, i - from)[k],
            ) by {
                if k < i - from - 1 {
                    assert(t.subrange(0, i - from)[k] == t.subrange(0, i - from - 1)[k]);
                }
            }
        }
    }
    assert(t.subrange(0, to - from) =~= t);
    Some(acc)
}

/// `s.parse::<u64>()`-style parse with an explicit maximum.
pub fn parse_unsigned_chars(v: &[char], max: u64) -> (r: Option<u64>)
    ensures
        r == (match parse_unsigned(v@, max as nat) {
            Some(n) => Some(n as u64),
            None => None::<u64>,
        }),
{
    let from: usize = if v.len() > 0 && v[0] == '+' {
        1
    } else {
        0
    };
    proof {
        if from == 1 {
            assert(v@.drop_first() =~= v@.subrange(1, v@.len() as int));
        } else {
            assert(v@ =~= v@.subrange(0, v@.len() as int));
        }
    }
    if from == v.len() {
        return None;
    }
    parse_digits(v, from, v.len(), max)
}

/// `s.parse::<i32>()`.
pub fn parse_i32_chars(v: &[char]) -> (r: Option<i32>)
    ensures
        r == (match parse_signed(v@, i32::MIN as int, i32::MAX as int) {
            Some(n) => Some(n as i32),
            None => None::<i32>,
        }),
{
    let neg = v.len() > 0 && v[0] == '-';
    let from: usize = if v.len() > 0 && (v[0] == '+' || v[0] == '-') {
        1
    } else {
        0
    };
    proof {
        if from == 1 {
            assert(v@.drop_first() =~= v@.subrange(1, v@.len() as int));
        } else {
            assert(v@ =~= v@.subrange(0, v@.len() as int));
        }
    }
    if from == v.len() {
        return None;
    }
    let lim: u64 = if neg {
        2147483648
    } else {
        2147483647
    };
    match parse_digits(v, from, v.len(), lim) {
        Some(n) => {
            if neg {
                let m: i64 = -(n as i64);
                Some(m as i32)
            } else {
                Some(n as i32)
            }
        },
        None => {
            proof {
                let b = v@.subrange(from as int, v@.len() as int);
                if all_digits(b) {
                    assert(dec_value(b) > lim);
                }
            }
            None
        },
    }
}

/// `s.parse::<i64>()`.
pub fn parse_i64_chars(v: &[char]) -> (r: Option<i64>)
    ensures
        r == (match parse_signed(v@, i64::MIN as int, i64::MAX as int) {
            Some(n) => Some(n as i64),
            None => None::<i64>,
        }),
{
    let neg = v.len() > 0 && v[0] == '-';
    let from: usize = if v.len() > 0 && (v[0] == '+' || v[0] == '-') {
        1
    } else {
        0
    };
    proof {
        if from == 1 {
            assert(v@.drop_first() =~= v@.subrange(1, v@.len() as int));
        } else {
            assert(v@ =~= v@.subrange(0, v@.len() as int));
        }
    }
    if from == v.len() {
        return None;
    }
    let lim: u64 = if neg {
        9223372036854775808
    } else {
        9223372036854775807
    };
    match parse_digits(v, from, v.len(), lim) {
        Some(n) => {
            if neg {
                let m: i128 = -(n as i128);
                Some(m as i64)
            } else {
                Some(n as i64)
            }
        },
        None => {
            proof {
                let b = v@.subrange(from as int, v@.len() as int);
                if all_digits(b) {
                    assert(dec_value(b) > lim);
                }
            }
            None
        },
    }
}

/// The ASCII digit for `d < 10`.
pub open spec fn digit_char(d: nat) -> char {
    (d + 48) as char
}

/// Decimal rendering of `n` without leading zeros (`u64::to_string`).
pub open spec fn dec_string(n: nat) -> Seq<char>
    decreases n,
{
    if n < 10 {
        seq![digit_char(n)]
    } else {
        dec_string(n / 10).push(digit_char(n % 10))
    }
}

/// Decimal rendering of a signed integer (`i64::to_string`).
pub open spec fn int_string(n: int) -> Seq<char> {
    if n < 0 {
        seq!['-'] + dec_string((-n) as nat)
    } else {
        dec_string(n as nat)
    }
}

/// Appends the decimal rendering of `n` to `s`.
pub fn push_u64(s: &mut String, n: u64)
    ensures
        final(s)@ == old(s)@ + dec_string(n as nat),
    decreases n,
{
    if n >= 10 {
        push_u64(s, n / 10);
    }
    let d = (n % 10) as u8;
    let c = (d + 48) as char;
    string_push(s, c);
    proof {
        if n >= 10 {
            assert(dec_string(n as nat) == dec_string((n / 10) as nat).push(digit_char((n % 10) as nat)));
        }
        assert(final(s)@ =~= old(s)@ + dec_string(n as nat));
    }
}

/// Appends the decimal rendering of a signed `n` to `s`.
pub fn push_i64(s: &mut String, n: i64)
    ensures
        final(s)@ == old(s)@ + int_string(n as int),
{
    if n < 0 {
        string_push(s, '-');
        let m: u64 = ((-(n as i128)) as u128) as u64;
        push_u64(s, m);
        assert(final(s)@ =~= old(s)@ + int_string(n as int));
    } else {
        push_u64(s, n as u64);
    }
}


// ───────────────────────── replacement ─────────────────────────

/// `str::replace(p, r)` for a non-empty `p`: every occurrence of `p`, taken
/// left to right without overlap, replaced by `r`.
pub open spec fn replace_all(s: Seq<char>, p: Seq<char>, r: Seq<char>) -> Seq<char>
    decreases s.len(),
{
    if p.len() == 0 || s.len() == 0 {
        s
    } else if p.len() <= s.len() && s.subrange(0, p.len() as int) == p {
        r + replace_all(s.subrange(p.len() as int, s.len() as int), p, r)
    } else {
        seq![s[0]] + replace_all(s.drop_first(), p, r)
    }
}

/// `s.replace(p, r)` for a non-empty pattern `p`.
pub fn replace_str(s: &str, p: &str, r: &str) -> (out: String)
    requires
        p@.len() > 0,
    ensures
        out@ == replace_all(s@, p@, r@),
{
    let v = chars_of(s);
    let pv = chars_of(p);
    let mut out = String::new();
    let mut i: usize = 0;
    assert(v@.subrange(0, v@.len() as int) =~= v@);
    while i < v.len()
        invariant
            v@ == s@,
            pv@ == p@,
            p@.len() > 0,
            i <= v@.len(),
            out@ + replace_all(v@.subrange(i as int, v@.len() as int), p@, r@) == replace_all(s@, p@, r@),
        decreases v.len() - i,
    {
        let ghost rest = v@.subrange(i as int, v@.len() as int);
        if matches_at(v.as_slice(), pv.as_slice(), i) {
            proof {
                assert(rest.subrange(0, p@.len() as int) =~= v@.subrange(i as int, i + p@.len()));
                assert(rest.subrange(p@.len() as int, rest.len() as int) =~= v@.subrange(i + p@.len(), v@.len() as int));
            }
            let ghost before = out@;
            string_append(&mut out, r);
            i = i + pv.len();
            assert(out@ + replace_all(v@.subrange(i as int, v@.len() as int), p@, r@) =~= before + replace_all(rest, p@, r@));
        } else {
            proof {
                if p@.len() <= rest.len() {
                    assert(rest.subrange(0, p@.len() as int) =~= v@.subrange(i as int, i + p@.len()));
                }
                assert(rest.drop_first() =~= v@.subrange(i + 1, v@.len() as int));
            }
            let ghost before = out@;
            string_push(&mut out, v[i]);
            i = i + 1;
            assert(out@ + replace_all(v@.subrange(i as int, v@.len() as int), p@, r@) =~= before + replace_all(rest, p@, r@));
        }
    }
    assert(replace_all(v@.subrange(i as int, v@.len() as int), p@, r@) =~= Seq::<char>::empty());
    assert(out@ =~= out@ + Seq::<char>::empty());
    out
}

// ───────────────────────── Unicode lower case ─────────────────────────

/// What `str::to_lowercase` returns for the characters `s`.
pub uninterp spec fn unicode_lower(s: Seq<char>) -> Seq<char>;

/// Whether every character of `s` is ASCII.
pub open spec fn all_ascii(s: Seq<char>) -> bool {
    forall|i: int| 0 <= i < s.len() ==> (#[trigger] s[i] as u32) < 128
}

/// `str::to_lowercase` (Unicode lower-case mapping).  The contract names the
/// result by [`unicode_lower`] of the argument's characters; for ASCII text
/// it states the documented mapping: `A`–`Z` become `a`–`z`, every other
/// character is unchanged.
#[verifier::external_body]
pub(crate) fn to_lowercase(s: &str) -> (r: String)
    ensures
        r@ == unicode_lower(s@),
        all_ascii(s@) ==> r@ == ascii_lower(s@),
{
    s.to_lowercase()
}

} // verus!
