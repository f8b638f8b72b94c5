//! Character-level text handling shared by the parsers and formatters.
//!
//! Every routine works on the `Seq<char>` view of a string, so the contracts of
//! the parsers and formatters can speak about exact character sequences.
use vstd::prelude::*;
use vstd::string::*;

verus! {

// ---------------------------------------------------------------------------
// Character classes
// ---------------------------------------------------------------------------

/// Unicode `White_Space` (the characters that `char::is_whitespace` accepts).
pub open spec fn is_ws(c: char) -> bool {
    ||| ('\u{9}' <= c && c <= '\u{d}')
    ||| c == ' '
    ||| c == '\u{85}'
    ||| c == '\u{a0}'
    ||| c == '\u{1680}'
    ||| ('\u{2000}' <= c && c <= '\u{200a}')
    ||| c == '\u{2028}'
    ||| c == '\u{2029}'
    ||| c == '\u{202f}'
    ||| c == '\u{205f}'
    ||| c == '\u{3000}'
}

pub fn char_is_ws(c: char) -> (r: bool)
    ensures
        r == is_ws(c),
{
    ('\u{9}' <= c && c <= '\u{d}') || c == ' ' || c == '\u{85}' || c == '\u{a0}' || c
        == '\u{1680}' || ('\u{2000}' <= c && c <= '\u{200a}') || c == '\u{2028}' || c
        == '\u{2029}' || c == '\u{202f}' || c == '\u{205f}' || c == '\u{3000}'
}

pub open spec fn is_digit(c: char) -> bool {
    '0' <= c && c <= '9'
}

pub open spec fn digit_value(c: char) -> nat {
    ((c as u32) - ('0' as u32)) as nat
}

pub open spec fn digit_char(d: nat) -> char
    recommends
        d < 10,
{
    if d == 0 {
        '0'
    } else if d == 1 {
        '1'
    } else if d == 2 {
        '2'
    } else if d == 3 {
        '3'
    } else if d == 4 {
        '4'
    } else if d == 5 {
        '5'
    } else if d == 6 {
        '6'
    } else if d == 7 {
        '7'
    } else if d == 8 {
        '8'
    } else {
        '9'
    }
}

fn exec_digit_char(d: u64) -> (c: char)
    requires
        d < 10,
    ensures
        c == digit_char(d as nat),
        is_digit(c),
        digit_value(c) == d,
{
    if d == 0 {
        '0'
    } else if d == 1 {
        '1'
    } else if d == 2 {
        '2'
    } else if d == 3 {
        '3'
    } else if d == 4 {
        '4'
    } else if d == 5 {
        '5'
    } else if d == 6 {
        '6'
    } else if d == 7 {
        '7'
    } else if d == 8 {
        '8'
    } else {
        '9'
    }
}

// ---------------------------------------------------------------------------
// Strings and character vectors
// ---------------------------------------------------------------------------

/// The characters of a string slice, in order.
pub fn chars_of(s: &str) -> (v: Vec<char>)
    ensures
        v@ == s@,
{
    let n = s.unicode_len();
    let mut v: Vec<char> = Vec::new();
    let mut i: usize = 0;
    while i < n
        invariant
            n == s@.len(),
            i <= n,
            v@ == s@.subrange(0, i as int),
        decreases n - i,
    {
        v.push(s.get_char(i));
        i += 1;
    }
    v
}

/// `String::push`: appends one character.
#[verifier::external_body]
pub(crate) fn push_char(s: &mut String, c: char)
    ensures
        final(s)@ == old(s)@.push(c),
{
    s.push(c);
}

/// Appends a sequence of characters to a string.
pub fn push_chars(s: &mut String, v: &[char])
    ensures
        final(s)@ == old(s)@ + v@,
{
    let ghost start = s@;
    let mut i: usize = 0;
    while i < v.len()
        invariant
            i <= v@.len(),
            s@ == start + v@.subrange(0, i as int),
        decreases v@.len() - i,
    {
        push_char(s, v[i]);
        i += 1;
        assert(v@.subrange(0, i as int) == v@.subrange(0, i - 1).push(v@[i - 1]));
    }
    assert(v@.subrange(0, v@.len() as int) == v@);
}

/// A new string holding exactly the given characters.
pub fn string_of(v: &[char]) -> (s: String)
    ensures
        s@ == v@,
{
    let mut s = String::new();
    push_chars(&mut s, v);
    s
}

/// Appends a string slice.
pub fn push_str(s: &mut String, t: &str)
    ensures
        final(s)@ == old(s)@ + t@,
{
    s.append(t);
}

// ---------------------------------------------------------------------------
// Decimal numbers
// ---------------------------------------------------------------------------

/// Decimal digits of a natural number, without leading zeros.
pub open spec fn dec(n: nat) -> Seq<char>
    decreases n,
{
    if n < 10 {
        seq![digit_char(n)]
    } else {
        dec(n / 10).push(digit_char(n % 10))
    }
}

/// Decimal digits padded with zeros to at least two characters (`{:02}`).
pub open spec fn pad2(n: nat) -> Seq<char> {
    if n < 10 {
        seq!['0'] + dec(n)
    } else {
        dec(n)
    }
}

/// Decimal digits padded with zeros to at least four characters (`{:04}`).
pub open spec fn pad4(n: nat) -> Seq<char> {
    if n < 10 {
        seq!['0', '0', '0'] + dec(n)
    } else if n < 100 {
        seq!['0', '0'] + dec(n)
    } else if n < 1000 {
        seq!['0'] + dec(n)
    } else {
        dec(n)
    }
}

/// Signed decimal (`{}` for a signed integer).
pub open spec fn dec_int(n: int) -> Seq<char> {
    if n < 0 {
        seq!['-'] + dec((-n) as nat)
    } else {
        dec(n as nat)
    }
}

/// Appends the decimal digits of `n`.
pub fn push_dec(s: &mut String, n: u64)
    ensures
        final(s)@ == old(s)@ + dec(n as nat),
    decreases n,
{
    if n >= 10 {
        push_dec(s, n / 10);
    }
    let c = exec_digit_char(n % 10);
    push_char(s, c);
    proof {
        if n < 10 {
            assert(n % 10 == n);
        }
    }
}

/// Appends `n` padded to two digits.
pub fn push_pad2(s: &mut String, n: u64)
    ensures
        final(s)@ == old(s)@ + pad2(n as nat),
{
    if n < 10 {
        push_char(s, '0');
    }
    push_dec(s, n);
}

/// Appends `n` padded to four digits.
pub fn push_pad4(s: &mut String, n: u64)
    ensures
        final(s)@ == old(s)@ + pad4(n as nat),
{
    if n < 10 {
        push_char(s, '0');
        push_char(s, '0');
        push_char(s, '0');
    } else if n < 100 {
        push_char(s, '0');
        push_char(s, '0');
    } else if n < 1000 {
        push_char(s, '0');
    }
    push_dec(s, n);
}

/// Appends a signed decimal.
pub fn push_dec_i64(s: &mut String, n: i64)
    ensures
        final(s)@ == old(s)@ + dec_int(n as int),
{
    if n < 0 {
        push_char(s, '-');
        let m: u64 = if n == i64::MIN {
            9223372036854775808u64
        } else {
            (-n) as u64
        };
        push_dec(s, m);
    } else {
        push_dec(s, n as u64);
    }
}

/// The decimal text of a number as a fresh string.
pub fn dec_string(n: u64) -> (s: String)
    ensures
        s@ == dec(n as nat),
{
    let mut s = String::new();
    push_dec(&mut s, n);
    s
}


// ---------------------------------------------------------------------------
// Trimming
// ---------------------------------------------------------------------------

/// `str::trim_start`: drops leading white space.
pub open spec fn trim_start(s: Seq<char>) -> Seq<char>
    decreases s.len(),
{
    if s.len() > 0 && is_ws(s[0]) {
        trim_start(s.drop_first())
    } else {
        s
    }
}

/// `str::trim_end`: drops trailing white space.
pub open spec fn trim_end(s: Seq<char>) -> Seq<char>
    decreases s.len(),
{
    if s.len() > 0 && is_ws(s.last()) {
        trim_end(s.drop_last())
    } else {
        s
    }
}

/// `str::trim`.
pub open spec fn trim(s: Seq<char>) -> Seq<char> {
    trim_end(trim_start(s))
}

proof fn lemma_trim_start_skip(s: Seq<char>, i: int)
    requires
        0 <= i <= s.len(),
        forall|k: int| 0 <= k < i ==> is_ws(#[trigger] s[k]),
    ensures
        trim_start(s) == trim_start(s.skip(i)),
    decreases i,
{
    if i > 0 {
        assert(s.skip(1) == s.drop_first());
        lemma_trim_start_skip(s.drop_first(), i - 1);
        assert(s.drop_first().skip(i - 1) == s.skip(i));
    } else {
        assert(s.skip(0) == s);
    }
}

proof fn lemma_trim_end_take(s: Seq<char>, j: int)
    requires
        0 <= j <= s.len(),
        forall|k: int| j <= k < s.len() ==> is_ws(#[trigger] s[k]),
    ensures
        trim_end(s) == trim_end(s.take(j)),
    decreases s.len() - j,
{
    if j < s.len() {
        assert(s.take(s.len() - 1) == s.drop_last());
        lemma_trim_end_take(s.drop_last(), j);
        assert(s.drop_last().take(j) == s.take(j));
    } else {
        assert(s.take(j) == s);
    }
}

/// Bounds `(a, b)` such that `v[a..b]` is `trim(v)`.
pub fn trim_bounds(v: &[char]) -> (r: (usize, usize))
    ensures
        r.0 <= r.1 <= v@.len(),
        v@.subrange(r.0 as int, r.1 as int) == trim(v@),
        trim_start(v@) == v@.skip(r.0 as int),
{
    let n = v.len();
    let mut a: usize = 0;
    while a < n && char_is_ws(v[a])
        invariant
            a <= n,
            n == v@.len(),
            forall|k: int| 0 <= k < a ==> is_ws(#[trigger] v@[k]),
        decreases n - a,
    {
        a += 1;
    }
    proof {
        lemma_trim_start_skip(v@, a as int);
        if a < n {
            assert(v@.skip(a as int)[0] == v@[a as int]);
        }
        assert(trim_start(v@.skip(a as int)) == v@.skip(a as int));
    }
    let mut b: usize = n;
    while b > a && char_is_ws(v[b - 1])
        invariant
            a <= b <= n,
            n == v@.len(),
            forall|k: int| b <= k < n ==> is_ws(#[trigger] v@[k]),
        decreases b,
    {
        b -= 1;
    }
    proof {
        let t = v@.skip(a as int);
        assert forall|k: int| (b - a) <= k < t.len() implies is_ws(#[trigger] t[k]) by {
            assert(t[k] == v@[a + k]);
        }
        lemma_trim_end_take(t, (b - a) as int);
        let u = t.take((b - a) as int);
        assert(u == v@.subrange(a as int, b as int));
        if u.len() > 0 {
            assert(u.last() == v@[b - 1]);
        }
        assert(trim_end(u) == u);
    }
    (a, b)
}

/// `trim` on a character vector, as a new vector.
pub fn trimmed(v: &[char]) -> (r: Vec<char>)
    ensures
        r@ == trim(v@),
{
    let (a, b) = trim_bounds(v);
    subvec(v, a, b)
}

/// A copy of `v[a..b]`.
pub fn subvec(v: &[char], a: usize, b: usize) -> (r: Vec<char>)
    requires
        a <= b <= v@.len(),
    ensures
        r@ == v@.subrange(a as int, b as int),
{
    let mut r: Vec<char> = Vec::new();
    let mut i = a;
    while i < b
        invariant
            a <= i <= b,
            b <= v@.len(),
            r@ == v@.subrange(a as int, i as int),
        decreases b - i,
    {
        r.push(v[i]);
        i += 1;
    }
    r
}

// ---------------------------------------------------------------------------
// Comparisons and searches
// ---------------------------------------------------------------------------

/// Character-wise equality of two vectors.
pub fn chars_eq(a: &[char], b: &[char]) -> (r: bool)
    ensures
        r == (a@ == b@),
{
    if a.len() != b.len() {
        return false;
    }
    let mut i: usize = 0;
    while i < a.len()
        invariant
            a@.len() == b@.len(),
            i <= a@.len(),
            forall|k: int| 0 <= k < i ==> a@[k] == b@[k],
        decreases a@.len() - i,
    {
        if a[i] != b[i] {
            return false;
        }
        i += 1;
    }
    assert(a@ =~= b@);
    true
}

/// Equality of a character vector and a string slice.
pub fn eq_str(a: &[char], b: &str) -> (r: bool)
    ensures
        r == (a@ == b@),
{
    let bv = chars_of(b);
    chars_eq(a, &bv)
}

/// `p` occurs in `s` at position `i`.
pub open spec fn occurs_at(s: Seq<char>, p: Seq<char>, i: int) -> bool {
    0 <= i && i + p.len() <= s.len() && s.subrange(i, i + p.len()) == p
}

/// `str::contains` with a string pattern.
pub open spec fn contains_seq(s: Seq<char>, p: Seq<char>) -> bool {
    exists|i: int| occurs_at(s, p, i)
}

/// `str::starts_with`.
pub open spec fn starts_with(s: Seq<char>, p: Seq<char>) -> bool {
    p.len() <= s.len() && s.take(p.len() as int) == p
}

/// A prefix of a text is a prefix of that text with anything after it.
pub proof fn lemma_starts_with_append(a: Seq<char>, b: Seq<char>, p: Seq<char>)
    requires
        starts_with(a, p),
    ensures
        starts_with(a + b, p),
{
    assert((a + b).take(p.len() as int) =~= a.take(p.len() as int));
}

/// Two texts that differ at a position inside both prefixes of a text
/// cannot both start it.
pub proof fn lemma_starts_differ(s: Seq<char>, p: Seq<char>, q: Seq<char>, i: int)
    requires
        0 <= i < p.len(),
        i < q.len(),
        p[i] != q[i],
        starts_with(s, p),
    ensures
        !starts_with(s, q),
{
    if starts_with(s, q) {
        assert(s.take(p.len() as int)[i] == s[i]);
        assert(s.take(q.len() as int)[i] == s[i]);
    }
}

/// A text occurs in any text built around it.
pub proof fn lemma_contains_middle(a: Seq<char>, p: Seq<char>, b: Seq<char>)
    ensures
        contains_seq(a + p + b, p),
{
    assert((a + p + b).subrange(a.len() as int, (a.len() + p.len()) as int) =~= p);
    assert(occurs_at(a + p + b, p, a.len() as int));
}

/// `str::ends_with`.
pub open spec fn ends_with(s: Seq<char>, p: Seq<char>) -> bool {
    p.len() <= s.len() && s.skip(s.len() - p.len()) == p
}

/// Whether `p` occurs in `s` at position `i`.
pub fn matches_at(s: &[char], p: &[char], i: usize) -> (r: bool)
    ensures
        r == occurs_at(s@, p@, i as int),
{
    if i > s.len() || p.len() > s.len() - i {
        return false;
    }
    let mut k: usize = 0;
    while k < p.len()
        invariant
            k <= p@.len(),
            i + p@.len() <= s@.len(),
            i + p@.len() <= usize::MAX,
            forall|j: int| 0 <= j < k ==> s@[i + j] == p@[j],
        decreases p@.len() - k,
    {
        let c = s[i + k];
        if c != p[k] {
            assert(s@.subrange(i as int, i + p@.len())[k as int] != p@[k as int]);
            return false;
        }
        k += 1;
    }
    assert(s@.subrange(i as int, i + p@.len()) =~= p@);
    true
}

/// First position at which `p` occurs in `s`, if any.
pub fn find_seq(s: &[char], p: &[char]) -> (r: Option<usize>)
    ensures
        r is None <==> !contains_seq(s@, p@),
        r matches Some(i) ==> occurs_at(s@, p@, i as int) && forall|j: int|
            0 <= j < i ==> !occurs_at(s@, p@, j),
{
    if p.len() > s.len() {
        return None;
    }
    let last = s.len() - p.len();
    let mut i: usize = 0;
    loop
        invariant
            p@.len() <= s@.len(),
            last == s@.len() - p@.len(),
            i <= last,
            forall|j: int| 0 <= j < i ==> !occurs_at(s@, p@, j),
        decreases last - i,
    {
        if matches_at(s, p, i) {
            return Some(i);
        }
        if i == last {
            return None;
        }
        i += 1;
    }
}

/// `s.contains(p)`.
pub fn contains(s: &[char], p: &str) -> (r: bool)
    ensures
        r == contains_seq(s@, p@),
{
    let pv = chars_of(p);
    find_seq(s, &pv).is_some()
}

/// `s.starts_with(p)`.
pub fn starts_with_str(s: &[char], p: &str) -> (r: bool)
    ensures
        r == starts_with(s@, p@),
{
    let pv = chars_of(p);
    let r = matches_at(s, &pv, 0);
    assert(r == starts_with(s@, p@));
    r
}

/// `s.ends_with(p)`.
pub fn ends_with_str(s: &[char], p: &str) -> (r: bool)
    ensures
        r == ends_with(s@, p@),
{
    let pv = chars_of(p);
    if pv.len() > s.len() {
        return false;
    }
    let r = matches_at(s, &pv, s.len() - pv.len());
    assert(s@.subrange(s@.len() - pv@.len(), s@.len() as int) == s@.skip(s@.len() - pv@.len()));
    r
}

/// Whether the character occurs in the vector.
pub fn has_char(s: &[char], c: char) -> (r: bool)
    ensures
        r == s@.contains(c),
{
    let mut i: usize = 0;
    while i < s.len()
        invariant
            i <= s@.len(),
            forall|k: int| 0 <= k < i ==> s@[k] != c,
        decreases s@.len() - i,
    {
        if s[i] == c {
            return true;
        }
        i += 1;
    }
    false
}

/// First index of the character, if it occurs.
pub fn find_char(s: &[char], c: char) -> (r: Option<usize>)
    ensures
        r is None <==> !s@.contains(c),
        r matches Some(i) ==> i < s@.len() && s@[i as int] == c && forall|k: int|
            0 <= k < i ==> s@[k] != c,
{
    let mut i: usize = 0;
    while i < s.len()
        invariant
            i <= s@.len(),
            forall|k: int| 0 <= k < i ==> s@[k] != c,
        decreases s@.len() - i,
    {
        if s[i] == c {
            return Some(i);
        }
        i += 1;
    }
    None
}


// ---------------------------------------------------------------------------
// Splitting
// ---------------------------------------------------------------------------

/// The character views of a sequence of character vectors.
pub open spec fn views(v: Seq<Vec<char>>) -> Seq<Seq<char>> {
    Seq::new(v.len(), |i: int| v[i]@)
}

/// `str::split` with a single-character separator: the pieces between the
/// separators, always at least one.
pub open spec fn split_on(s: Seq<char>, sep: char) -> Seq<Seq<char>>
    decreases s.len(),
{
    if s.len() == 0 {
        seq![Seq::<char>::empty()]
    } else {
        let rest = split_on(s.drop_last(), sep);
        if s.last() == sep {
            rest.push(Seq::<char>::empty())
        } else {
            rest.update(rest.len() - 1, rest.last().push(s.last()))
        }
    }
}

/// Splitting always gives at least one part.
pub proof fn lemma_split_on_nonempty(s: Seq<char>, sep: char)
    ensures
        split_on(s, sep).len() >= 1,
    decreases s.len(),
{
    if s.len() > 0 {
        lemma_split_on_nonempty(s.drop_last(), sep);
    }
}

/// Pieces of `v` between occurrences of `sep`.
#[verifier::spinoff_prover]
pub fn split_chars(v: &[char], sep: char) -> (r: Vec<Vec<char>>)
    ensures
        views(r@) == split_on(v@, sep),
        r@.len() >= 1,
{
    let mut pieces: Vec<Vec<char>> = Vec::new();
    let mut cur: Vec<char> = Vec::new();
    let mut i: usize = 0;
    while i < v.len()
        invariant
            i <= v@.len(),
            views(pieces@).push(cur@) == split_on(v@.take(i as int), sep),
        decreases v@.len() - i,
    {
        let ghost before = v@.take(i as int);
        assert(v@.take(i + 1).drop_last() == before);
        let c = v[i];
        if c == sep {
            let mut done: Vec<char> = Vec::new();
            std::mem::swap(&mut done, &mut cur);
            pieces.push(done);
        } else {
            cur.push(c);
        }
        i += 1;
        proof {
            lemma_split_on_nonempty(before, sep);
        }
        assert(views(pieces@).push(cur@) =~= split_on(v@.take(i as int), sep));
    }
    assert(v@.take(v@.len() as int) == v@);
    pieces.push(cur);
    assert(views(pieces@) =~= split_on(v@, sep));
    proof {
        lemma_split_on_nonempty(v@, sep);
    }
    pieces
}

/// `str::split_whitespace`: the maximal runs of non-white-space characters.
pub open spec fn words(s: Seq<char>) -> Seq<Seq<char>>
    decreases s.len(),
{
    if s.len() == 0 {
        Seq::empty()
    } else {
        let w = words(s.drop_last());
        let c = s.last();
        if is_ws(c) {
            w
        } else if s.len() >= 2 && !is_ws(s[s.len() - 2]) {
            w.update(w.len() - 1, w.last().push(c))
        } else {
            w.push(seq![c])
        }
    }
}

/// A text that ends in a non-space character has at least one word.
pub proof fn lemma_words_nonempty_after_word_char(s: Seq<char>)
    requires
        s.len() > 0,
        !is_ws(s.last()),
    ensures
        words(s).len() >= 1,
    decreases s.len(),
{
    if s.len() >= 2 && !is_ws(s[s.len() - 2]) {
        assert(s.drop_last().last() == s[s.len() - 2]);
        lemma_words_nonempty_after_word_char(s.drop_last());
    }
}

/// The white-space separated words of `v`.
#[verifier::spinoff_prover]
pub fn split_words(v: &[char]) -> (r: Vec<Vec<char>>)
    ensures
        views(r@) == words(v@),
{
    let mut out: Vec<Vec<char>> = Vec::new();
    let mut cur: Vec<char> = Vec::new();
    let mut in_word = false;
    let mut i: usize = 0;
    while i < v.len()
        invariant
            i <= v@.len(),
            in_word == (i > 0 && !is_ws(v@[i - 1])),
            in_word ==> views(out@).push(cur@) == words(v@.take(i as int)),
            !in_word ==> views(out@) == words(v@.take(i as int)) && cur@.len() == 0,
        decreases v@.len() - i,
    {
        let ghost before = v@.take(i as int);
        assert(v@.take(i + 1).drop_last() == before);
        let c = v[i];
        if char_is_ws(c) {
            if in_word {
                let mut done: Vec<char> = Vec::new();
            std::mem::swap(&mut done, &mut cur);
                out.push(done);
            }
            in_word = false;
        } else {
            proof {
                if in_word {
                    lemma_words_nonempty_after_word_char(before);
                    assert(before.last() == v@[i - 1]);
                }
            }
            cur.push(c);
            in_word = true;
        }
        i += 1;
        proof {
            let now = v@.take(i as int);
            assert(now.drop_last() == before);
            assert(now.last() == c);
            if i >= 2 {
                assert(now[now.len() - 2] == v@[i - 2]);
            }
            if in_word {
                let w = words(before);
                if i >= 2 && !is_ws(now[now.len() - 2]) {
                    assert(words(now) == w.update(w.len() - 1, w.last().push(c)));
                    assert(w.last() == cur@.drop_last());
                } else {
                    assert(words(now) == w.push(seq![c]));
                    assert(cur@ =~= seq![c]);
                }
                assert(views(out@).push(cur@) =~= words(now));
            } else {
                assert(views(out@) =~= words(now));
            }
        }
    }
    assert(v@.take(v@.len() as int) == v@);
    if in_word {
        out.push(cur);
        assert(views(out@) =~= words(v@));
    }
    out
}

/// A line of `str::lines`: the `\r` before a line feed is dropped.
pub open spec fn strip_cr(line: Seq<char>) -> Seq<char> {
    if line.len() > 0 && line.last() == '\r' {
        line.drop_last()
    } else {
        line
    }
}

/// `str::lines`: lines split at `\n` (dropping a `\r` before it); a final line
/// ending does not produce an empty last line.
pub open spec fn lines(s: Seq<char>) -> Seq<Seq<char>> {
    let pieces = split_on(s, '\n');
    let ended = pieces.drop_last().map_values(|l: Seq<char>| strip_cr(l));
    if pieces.last().len() == 0 {
        ended
    } else {
        ended.push(pieces.last())
    }
}

/// The lines of `v`, as `str::lines` yields them.
#[verifier::spinoff_prover]
pub fn split_lines(v: &[char]) -> (r: Vec<Vec<char>>)
    ensures
        views(r@) == lines(v@),
{
    let pieces = split_chars(v, '\n');
    let n = pieces.len();
    let mut out: Vec<Vec<char>> = Vec::new();
    let mut i: usize = 0;
    let ghost pv = views(pieces@);
    while i + 1 < n
        invariant
            n == pieces@.len(),
            n >= 1,
            pv == views(pieces@),
            i + 1 <= n,
            views(out@) == pv.take(i as int).map_values(|l: Seq<char>| strip_cr(l)),
        decreases n - i,
    {
        let piece = &pieces[i];
        let m = piece.len();
        let line = if m > 0 && piece[m - 1] == '\r' {
            subvec(piece, 0, m - 1)
        } else {
            subvec(piece, 0, m)
        };
        proof {
            assert(pv[i as int] == piece@);
            if m > 0 {
                assert(piece@.drop_last() == piece@.subrange(0, m - 1));
                assert(piece@.last() == piece@[m - 1]);
            }
            assert(piece@.subrange(0, m as int) == piece@);
            assert(line@ == strip_cr(pv[i as int]));
        }
        let ghost line_view = line@;
        let ghost old_out = out@;
        assert(views(old_out).len() == old_out.len());
        assert(pv.take(i as int).map_values(|l: Seq<char>| strip_cr(l)).len() == i);
        out.push(line);
        assert(out@[i as int]@ == line_view);
        assert(views(out@)[i as int] == strip_cr(pv[i as int]));
        i += 1;
        assert forall|k: int| 0 <= k < i - 1 implies views(out@)[k] == strip_cr(pv[k]) by {
            assert(out@[k] == old_out[k]);
            assert(views(old_out)[k] == pv.take(i - 1).map_values(|l: Seq<char>| strip_cr(l))[k]);
        }
        assert(views(out@) =~= pv.take(i as int).map_values(|l: Seq<char>| strip_cr(l)));
    }
    assert(pv.take((n - 1) as int) == pv.drop_last());
    let last = &pieces[n - 1];
    assert(pv.last() == last@);
    if last.len() > 0 {
        out.push(subvec(last, 0, last.len()));
        assert(last@.subrange(0, last@.len() as int) == last@);
        assert(views(out@) =~= lines(v@));
    } else {
        assert(views(out@) =~= lines(v@));
    }
    out
}

// ---------------------------------------------------------------------------
// Integer parsing
// ---------------------------------------------------------------------------

/// Value of a sequence of decimal digits.
pub open spec fn digits_value(s: Seq<char>) -> nat
    decreases s.len(),
{
    if s.len() == 0 {
        0
    } else {
        digits_value(s.drop_last()) * 10 + digit_value(s.last())
    }
}

pub open spec fn all_digits(s: Seq<char>) -> bool {
    forall|i: int| 0 <= i < s.len() ==> is_digit(#[trigger] s[i])
}

/// The unsigned value that `str::parse` reads: an optional `+`, then one or
/// more decimal digits.
pub open spec fn parse_nat(s: Seq<char>) -> Option<nat> {
    let body = if s.len() > 0 && s[0] == '+' {
        s.drop_first()
    } else {
        s
    };
    if body.len() > 0 && all_digits(body) {
        Some(digits_value(body))
    } else {
        None
    }
}

/// `str::parse::<u64>` (and narrower types, with `max` the type's maximum).
pub open spec fn parse_bounded(s: Seq<char>, max: nat) -> Option<nat> {
    match parse_nat(s) {
        Some(v) => if v <= max {
            Some(v)
        } else {
            None
        },
        None => None,
    }
}

/// The value of a digit prefix never exceeds the value of a longer prefix.
pub proof fn lemma_digits_value_monotone(s: Seq<char>, i: int)
    requires
        0 <= i <= s.len(),
    ensures
        digits_value(s.take(i)) <= digits_value(s),
    decreases s.len() - i,
{
    if i < s.len() {
        lemma_digits_value_monotone(s, i + 1);
        assert(s.take(i + 1).drop_last() == s.take(i));
    } else {
        assert(s.take(i) == s);
    }
}

/// Parses `v[start..]` as plain decimal digits of value at most `max`.
pub fn parse_digits_from(v: &[char], start: usize, max: u64) -> (r: Option<u64>)
    requires
        start <= v@.len(),
    ensures
        ({
            let body = v@.skip(start as int);
            &&& r matches Some(x) ==> body.len() > 0 && all_digits(body) && digits_value(body)
                == x as nat && x <= max
            &&& r is None ==> !(body.len() > 0 && all_digits(body) && digits_value(body) <= max)
        }),
{
    let n = v.len();
    let ghost body = v@.skip(start as int);
    if start >= n {
        return None;
    }
    let mut value: u64 = 0;
    let mut i = start;
    while i < n
        invariant
            start <= i <= n,
            start < n,
            n == v@.len(),
            body == v@.skip(start as int),
            value as nat == digits_value(body.take(i - start)),
            value <= max,
            all_digits(body.take(i - start)),
        decreases n - i,
    {
        let c = v[i];
        assert(body[i - start] == c);
        assert(body.take(i - start + 1).drop_last() == body.take(i - start));
        assert(body.take(i - start + 1).last() == c);
        if !('0' <= c && c <= '9') {
            proof {
                assert(!is_digit(body[i - start]));
            }
            return None;
        }
        let d = (c as u32 - '0' as u32) as u64;
        if d > max || value > (max - d) / 10 {
            proof {
                assert(value * 10 + d > max) by (nonlinear_arith)
                    requires
                        d > max || value > (max - d) / 10,
                ;
                lemma_digits_value_monotone(body, i - start + 1);
            }
            return None;
        }
        proof {
            assert(value * 10 + d <= max) by (nonlinear_arith)
                requires
                    value <= (max - d) / 10,
                    d <= 9,
            ;
        }
        value = value * 10 + d;
        i += 1;
        assert(all_digits(body.take(i - start)));
    }
    assert(body.take(n - start) == body);
    Some(value)
}

/// Parses an unsigned decimal of at most `max` (`str::parse` for unsigned
/// integer types).
pub fn parse_unsigned(v: &[char], max: u64) -> (r: Option<u64>)
    ensures
        r matches Some(x) ==> parse_bounded(v@, max as nat) == Some(x as nat),
        r is None ==> parse_bounded(v@, max as nat) is None,
{
    let start: usize = if v.len() > 0 && v[0] == '+' {
        1
    } else {
        0
    };
    assert(v@.skip(1) == v@.drop_first());
    assert(v@.skip(0) == v@);
    parse_digits_from(v, start, max)
}

/// `str::parse::<u32>`.
pub fn parse_u32(v: &[char]) -> (r: Option<u32>)
    ensures
        r matches Some(x) ==> parse_bounded(v@, u32::MAX as nat) == Some(x as nat),
        r is None ==> parse_bounded(v@, u32::MAX as nat) is None,
{
    match parse_unsigned(v, u32::MAX as u64) {
        Some(x) => Some(x as u32),
        None => None,
    }
}

/// The value that `str::parse` reads for a signed integer type: an optional
/// sign, then one or more decimal digits.
pub open spec fn parse_signed(s: Seq<char>) -> Option<int> {
    if s.len() > 0 && s[0] == '-' {
        let body = s.drop_first();
        if body.len() > 0 && all_digits(body) {
            Some(-(digits_value(body) as int))
        } else {
            None
        }
    } else {
        match parse_nat(s) {
            Some(v) => Some(v as int),
            None => None,
        }
    }
}

/// `str::parse::<i32>`.
pub open spec fn parse_i32_spec(s: Seq<char>) -> Option<int> {
    match parse_signed(s) {
        Some(v) => if i32::MIN <= v <= i32::MAX {
            Some(v)
        } else {
            None
        },
        None => None,
    }
}

/// `str::parse::<i32>`.
pub fn parse_i32(v: &[char]) -> (r: Option<i32>)
    ensures
        r matches Some(x) ==> parse_i32_spec(v@) == Some(x as int),
        r is None ==> parse_i32_spec(v@) is None,
{
    if v.len() > 0 && v[0] == '-' {
        assert(v@.skip(1) == v@.drop_first());
        match parse_digits_from(v, 1, 2147483648) {
            Some(x) => {
                if x == 2147483648 {
                    Some(i32::MIN)
                } else {
                    Some(-(x as i32))
                }
            },
            None => None,
        }
    } else {
        match parse_unsigned(v, i32::MAX as u64) {
            Some(x) => Some(x as i32),
            None => None,
        }
    }
}


// ---------------------------------------------------------------------------
// More searches
// ---------------------------------------------------------------------------

/// The part after the first occurrence of `c` (empty when `c` does not occur).
pub open spec fn after_char(s: Seq<char>, c: char) -> Seq<char>
    decreases s.len(),
{
    if s.len() == 0 {
        s
    } else if s[0] == c {
        s.drop_first()
    } else {
        after_char(s.drop_first(), c)
    }
}

/// What follows the first occurrence of a character.
pub proof fn lemma_after_char(s: Seq<char>, c: char, i: int)
    requires
        0 <= i < s.len(),
        s[i] == c,
        forall|k: int| 0 <= k < i ==> s[k] != c,
    ensures
        after_char(s, c) == s.skip(i + 1),
    decreases i,
{
    if i > 0 {
        lemma_after_char(s.drop_first(), c, i - 1);
        assert(s.drop_first().skip(i) == s.skip(i + 1));
    } else {
        assert(s.skip(1) == s.drop_first());
    }
}

/// `str::trim_end_matches(c)` for a single character.
pub open spec fn trim_end_char(s: Seq<char>, c: char) -> Seq<char>
    decreases s.len(),
{
    if s.len() > 0 && s.last() == c {
        trim_end_char(s.drop_last(), c)
    } else {
        s
    }
}

/// `str::trim_start_matches(c)` for a single character.
pub open spec fn trim_start_char(s: Seq<char>, c: char) -> Seq<char>
    decreases s.len(),
{
    if s.len() > 0 && s[0] == c {
        trim_start_char(s.drop_first(), c)
    } else {
        s
    }
}

/// `v` without the trailing run of `c`.
pub fn trim_end_matching(v: &[char], c: char) -> (r: Vec<char>)
    ensures
        r@ == trim_end_char(v@, c),
{
    let mut b = v.len();
    assert(v@.take(b as int) == v@);
    while b > 0 && v[b - 1] == c
        invariant
            b <= v@.len(),
            trim_end_char(v@, c) == trim_end_char(v@.take(b as int), c),
        decreases b,
    {
        assert(v@.take(b as int).drop_last() == v@.take(b - 1));
        b -= 1;
    }
    assert(v@.take(b as int) == v@.subrange(0, b as int));
    subvec(v, 0, b)
}

/// `v` without the leading run of `c`.
pub fn trim_start_matching(v: &[char], c: char) -> (r: Vec<char>)
    ensures
        r@ == trim_start_char(v@, c),
{
    let mut a: usize = 0;
    assert(v@.skip(0) == v@);
    while a < v.len() && v[a] == c
        invariant
            a <= v@.len(),
            trim_start_char(v@, c) == trim_start_char(v@.skip(a as int), c),
        decreases v@.len() - a,
    {
        assert(v@.skip(a as int).drop_first() == v@.skip(a + 1));
        a += 1;
    }
    assert(v@.skip(a as int) == v@.subrange(a as int, v@.len() as int));
    subvec(v, a, v.len())
}

/// The part after the first `c`, or all of `v` when `c` does not occur.
pub fn after_first_or_all(v: &[char], c: char) -> (r: Vec<char>)
    ensures
        r@ == (if v@.contains(c) {
            after_char(v@, c)
        } else {
            v@
        }),
{
    match find_char(v, c) {
        Some(i) => {
            proof {
                lemma_after_char(v@, c, i as int);
            }
            let n = v.len();
            assert(i < n);
            assert(v@.skip(i + 1) == v@.subrange(i + 1, v@.len() as int));
            subvec(v, i + 1, v.len())
        },
        None => {
            assert(v@.subrange(0, v@.len() as int) == v@);
            subvec(v, 0, v.len())
        },
    }
}

/// ASCII lower case of a character (`char::to_ascii_lowercase`).
pub open spec fn ascii_lower(c: char) -> char {
    if 'A' <= c && c <= 'Z' {
        ((c as u32) + 32) as char
    } else {
        c
    }
}

pub fn to_ascii_lower(c: char) -> (r: char)
    ensures
        r == ascii_lower(c),
{
    if 'A' <= c && c <= 'Z' {
        ((c as u8) + 32) as char
    } else {
        c
    }
}

/// `str::eq_ignore_ascii_case`.
pub open spec fn eq_ignore_ascii_case(a: Seq<char>, b: Seq<char>) -> bool {
    a.len() == b.len() && forall|i: int| 0 <= i < a.len() ==> ascii_lower(a[i]) == ascii_lower(
        #[trigger] b[i],
    )
}

pub fn chars_eq_ignore_ascii_case(a: &[char], b: &str) -> (r: bool)
    ensures
        r == eq_ignore_ascii_case(a@, b@),
{
    let bv = chars_of(b);
    if a.len() != bv.len() {
        return false;
    }
    let mut i: usize = 0;
    while i < a.len()
        invariant
            a@.len() == bv@.len(),
            bv@ == b@,
            i <= a@.len(),
            forall|k: int| 0 <= k < i ==> ascii_lower(a@[k]) == ascii_lower(#[trigger] bv@[k]),
        decreases a@.len() - i,
    {
        if to_ascii_lower(a[i]) != to_ascii_lower(bv[i]) {
            return false;
        }
        i += 1;
    }
    true
}

/// The ASCII lower case of a whole sequence (`str::to_ascii_lowercase`).
pub open spec fn lower_seq(s: Seq<char>) -> Seq<char> {
    s.map_values(|c: char| ascii_lower(c))
}

pub fn lowercase(v: &[char]) -> (r: Vec<char>)
    ensures
        r@ == lower_seq(v@),
{
    let mut r: Vec<char> = Vec::new();
    let mut i: usize = 0;
    while i < v.len()
        invariant
            i <= v@.len(),
            r@ == lower_seq(v@.take(i as int)),
        decreases v@.len() - i,
    {
        r.push(to_ascii_lower(v[i]));
        i += 1;
        assert(r@ =~= lower_seq(v@.take(i as int)));
    }
    assert(v@.take(v@.len() as int) == v@);
    r
}

/// The UTF-8 bytes of a character.
pub open spec fn utf8_char(c: char) -> Seq<u8> {
    let v = c as u32;
    if v < 0x80 {
        seq![v as u8]
    } else if v < 0x800 {
        seq![(0xC0 + v / 64) as u8, (0x80 + v % 64) as u8]
    } else if v < 0x10000 {
        seq![(0xE0 + v / 4096) as u8, (0x80 + (v / 64) % 64) as u8, (0x80 + v % 64) as u8]
    } else {
        seq![
            (0xF0 + v / 262144) as u8,
            (0x80 + (v / 4096) % 64) as u8,
            (0x80 + (v / 64) % 64) as u8,
            (0x80 + v % 64) as u8,
        ]
    }
}

/// The UTF-8 bytes of a text.
pub open spec fn utf8_of(s: Seq<char>) -> Seq<u8>
    decreases s.len(),
{
    if s.len() == 0 {
        Seq::empty()
    } else {
        utf8_of(s.drop_last()) + utf8_char(s.last())
    }
}

/// A continuation byte of UTF-8 (`10xxxxxx`).
pub open spec fn is_continuation(b: u8) -> bool {
    0x80 <= b < 0xC0
}

/// The encoding of a character is one to four bytes: a leading byte, then
/// continuation bytes.
pub proof fn lemma_utf8_char_shape(c: char)
    ensures
        1 <= utf8_char(c).len() <= 4,
        !is_continuation(utf8_char(c)[0]),
        forall|i: int| 1 <= i < utf8_char(c).len() ==> is_continuation(#[trigger] utf8_char(c)[i]),
{
    let v = c as u32;
    assert(v <= 0x10FFFF);
    if v < 0x80 {
    } else if v < 0x800 {
        assert(2 <= v / 64 < 32);
        assert(v % 64 < 64);
    } else if v < 0x10000 {
        assert(v / 4096 < 16);
        assert((v / 64) % 64 < 64);
        assert(v % 64 < 64);
    } else {
        assert(v / 262144 <= 4);
        assert((v / 4096) % 64 < 64);
        assert((v / 64) % 64 < 64);
        assert(v % 64 < 64);
    }
}

/// Different characters have different encodings.
pub proof fn lemma_utf8_char_injective(c: char, d: char)
    requires
        utf8_char(c) == utf8_char(d),
    ensures
        c == d,
{
    let v = c as u32;
    let w = d as u32;
    let e = utf8_char(c);
    assert(v <= 0x10FFFF && w <= 0x10FFFF);
    if v < 0x80 {
        assert(w < 0x80);
        assert(e[0] == v && e[0] == w);
    } else if v < 0x800 {
        assert(0x80 <= w < 0x800);
        assert(e[0] == 0xC0 + v / 64 && e[0] == 0xC0 + w / 64);
        assert(e[1] == 0x80 + v % 64 && e[1] == 0x80 + w % 64);
        assert(v == 64 * (v / 64) + v % 64);
        assert(w == 64 * (w / 64) + w % 64);
    } else if v < 0x10000 {
        assert(0x800 <= w < 0x10000);
        assert(e[0] == 0xE0 + v / 4096 && e[0] == 0xE0 + w / 4096);
        assert(e[1] == 0x80 + (v / 64) % 64 && e[1] == 0x80 + (w / 64) % 64);
        assert(e[2] == 0x80 + v % 64 && e[2] == 0x80 + w % 64);
        assert(v / 64 == 64 * (v / 4096) + (v / 64) % 64);
        assert(w / 64 == 64 * (w / 4096) + (w / 64) % 64);
        assert(v == 64 * (v / 64) + v % 64);
        assert(w == 64 * (w / 64) + w % 64);
    } else {
        assert(0x10000 <= w);
        assert(e[0] == 0xF0 + v / 262144 && e[0] == 0xF0 + w / 262144);
        assert(e[1] == 0x80 + (v / 4096) % 64 && e[1] == 0x80 + (w / 4096) % 64);
        assert(e[2] == 0x80 + (v / 64) % 64 && e[2] == 0x80 + (w / 64) % 64);
        assert(e[3] == 0x80 + v % 64 && e[3] == 0x80 + w % 64);
        assert(v / 4096 == 64 * (v / 262144) + (v / 4096) % 64);
        assert(w / 4096 == 64 * (w / 262144) + (w / 4096) % 64);
        assert(v / 64 == 64 * (v / 4096) + (v / 64) % 64);
        assert(w / 64 == 64 * (w / 4096) + (w / 64) % 64);
        assert(v == 64 * (v / 64) + v % 64);
        assert(w == 64 * (w / 64) + w % 64);
    }
}

/// Every character adds at least one byte.
pub proof fn lemma_utf8_len(s: Seq<char>)
    ensures
        utf8_of(s).len() >= s.len(),
    decreases s.len(),
{
    if s.len() > 0 {
        lemma_utf8_len(s.drop_last());
        lemma_utf8_char_shape(s.last());
    }
}

/// The encoding of a text ends with the encoding of its last character,
/// whose leading byte is the last byte that is no continuation byte.
proof fn lemma_last_lead(x: Seq<u8>, c: char, p: int)
    requires
        0 <= p < x.len() + utf8_char(c).len(),
        !is_continuation((x + utf8_char(c))[p]),
    ensures
        p <= x.len(),
{
    lemma_utf8_char_shape(c);
    if p > x.len() {
        assert((x + utf8_char(c))[p] == utf8_char(c)[p - x.len()]);
    }
}

/// Different texts have different encodings.
pub proof fn lemma_utf8_injective(s: Seq<char>, t: Seq<char>)
    requires
        utf8_of(s) == utf8_of(t),
    ensures
        s == t,
    decreases s.len() + t.len(),
{
    if s.len() == 0 || t.len() == 0 {
        lemma_utf8_len(s);
        lemma_utf8_len(t);
        if s.len() > 0 {
            lemma_utf8_char_shape(s.last());
        }
        if t.len() > 0 {
            lemma_utf8_char_shape(t.last());
        }
        assert(s.len() == 0 && t.len() == 0);
        assert(s =~= t);
    } else {
        let x = utf8_of(s.drop_last());
        let y = utf8_of(t.drop_last());
        let a = utf8_char(s.last());
        let b = utf8_char(t.last());
        let z = x + a;
        assert(z == y + b);
        lemma_utf8_char_shape(s.last());
        lemma_utf8_char_shape(t.last());
        assert(z[x.len() as int] == a[0]);
        assert((y + b)[y.len() as int] == b[0]);
        lemma_last_lead(x, s.last(), y.len() as int);
        lemma_last_lead(y, t.last(), x.len() as int);
        assert(x.len() == y.len());
        assert(a =~= z.subrange(x.len() as int, z.len() as int));
        assert(b =~= (y + b).subrange(y.len() as int, (y + b).len() as int));
        assert(x =~= z.subrange(0, x.len() as int));
        assert(y =~= (y + b).subrange(0, y.len() as int));
        lemma_utf8_char_injective(s.last(), t.last());
        lemma_utf8_injective(s.drop_last(), t.drop_last());
        assert(s =~= s.drop_last().push(s.last()));
        assert(t =~= t.drop_last().push(t.last()));
    }
}

} // verus!
