//! Text helpers: decimal rendering and string assembly with exact specs.

use vstd::prelude::*;
use vstd::string::*;

verus! {

/// The decimal digit character for a value below ten.
pub open spec fn digit_char(d: nat) -> char {
    if d == 0 { '0' } else if d == 1 { '1' } else if d == 2 { '2' } else if d == 3 { '3' }
    else if d == 4 { '4' } else if d == 5 { '5' } else if d == 6 { '6' } else if d == 7 { '7' }
    else if d == 8 { '8' } else { '9' }
}

/// The decimal rendering of a natural number, without leading zeros.
pub open spec fn decimal(n: nat) -> Seq<char>
    decreases n,
{
    if n < 10 {
        seq![digit_char(n)]
    } else {
        decimal(n / 10).push(digit_char(n % 10))
    }
}

fn digit_str(d: u64) -> (c: &'static str)
    requires
        d < 10,
    ensures
        c@ == seq![digit_char(d as nat)],
{
    proof {
        reveal_strlit("0"); reveal_strlit("1"); reveal_strlit("2"); reveal_strlit("3");
        reveal_strlit("4"); reveal_strlit("5"); reveal_strlit("6"); reveal_strlit("7");
        reveal_strlit("8"); reveal_strlit("9");
    }
    if d == 0 { "0" } else if d == 1 { "1" } else if d == 2 { "2" } else if d == 3 { "3" }
    else if d == 4 { "4" } else if d == 5 { "5" } else if d == 6 { "6" } else if d == 7 { "7" }
    else if d == 8 { "8" } else { "9" }
}

/// Render a number in decimal, as `format!("{}", n)` does.
pub fn decimal_string(n: u64) -> (s: String)
    ensures
        s@ == decimal(n as nat),
    decreases n,
{
    if n < 10 {
        digit_str(n).to_owned()
    } else {
        let mut s = decimal_string(n / 10);
        s.append(digit_str(n % 10));
        s
    }
}

/// Two texts hold the same characters.
pub fn same_text(a: &str, b: &str) -> (r: bool)
    ensures
        r == (a@ == b@),
{
    a.to_owned() == b.to_owned()
}

/// The characters Rust's `char::is_whitespace` accepts (Unicode White_Space).
pub open spec fn is_ws(c: char) -> bool {
    ||| ('\u{9}' <= c && c <= '\u{d}')
    ||| c == ' '
    ||| c == '\u{85}'
    ||| c == '\u{a0}'
    ||| c == '\u{1680}'
    ||| ('\u{2000}' <= c && c <= '\u{200a}')
    ||| c == '\u{2028}'
    ||| c == '\u{2029}'
    ||| c == '\u{202f}'
    ||| c == '\u{205f}'
    ||| c == '\u{3000}'
}

/// Whether a character is whitespace, as `char::is_whitespace` decides.
pub fn is_whitespace(c: char) -> (r: bool)
    ensures
        r == is_ws(c),
{
    ('\u{9}' <= c && c <= '\u{d}') || c == ' ' || c == '\u{85}' || c == '\u{a0}'
        || c == '\u{1680}' || ('\u{2000}' <= c && c <= '\u{200a}') || c == '\u{2028}'
        || c == '\u{2029}' || c == '\u{202f}' || c == '\u{205f}' || c == '\u{3000}'
}

/// Number of leading whitespace characters.
pub open spec fn leading_ws(s: Seq<char>) -> nat
    decreases s.len(),
{
    if s.len() > 0 && is_ws(s[0]) {
        1 + leading_ws(s.drop_first())
    } else {
        0
    }
}

/// Number of trailing whitespace characters.
pub open spec fn trailing_ws(s: Seq<char>) -> nat
    decreases s.len(),
{
    if s.len() > 0 && is_ws(s.last()) {
        1 + trailing_ws(s.drop_last())
    } else {
        0
    }
}

/// The text with leading and trailing whitespace removed, as `str::trim`.
pub open spec fn trimmed(s: Seq<char>) -> Seq<char> {
    let t = s.skip(leading_ws(s) as int);
    t.take(t.len() - trailing_ws(t))
}

proof fn lemma_leading_ws_bound(s: Seq<char>)
    ensures
        leading_ws(s) <= s.len(),
    decreases s.len(),
{
    if s.len() > 0 && is_ws(s[0]) {
        lemma_leading_ws_bound(s.drop_first());
    }
}

proof fn lemma_trailing_ws_bound(s: Seq<char>)
    ensures
        trailing_ws(s) <= s.len(),
    decreases s.len(),
{
    if s.len() > 0 && is_ws(s.last()) {
        lemma_trailing_ws_bound(s.drop_last());
    }
}

/// Count leading whitespace from position `i` onward.
proof fn lemma_leading_ws_step(s: Seq<char>, i: int)
    requires
        0 <= i < s.len(),
        forall|j: int| 0 <= j < i ==> is_ws(s[j]),
    ensures
        is_ws(s[i]) ==> leading_ws(s) == i + 1 + leading_ws(s.skip(i + 1)),
        !is_ws(s[i]) ==> leading_ws(s) == i,
    decreases i,
{
    if i > 0 {
        lemma_leading_ws_step(s.drop_first(), i - 1);
        assert(s.drop_first().skip(i) =~= s.skip(i + 1));
    } else {
        assert(s.drop_first() =~= s.skip(1));
    }
}

proof fn lemma_leading_ws_all(s: Seq<char>)
    requires
        forall|j: int| 0 <= j < s.len() ==> is_ws(s[j]),
    ensures
        leading_ws(s) == s.len(),
    decreases s.len(),
{
    if s.len() > 0 {
        lemma_leading_ws_all(s.drop_first());
    }
}

proof fn lemma_trailing_ws_step(s: Seq<char>, k: int)
    requires
        0 <= k < s.len(),
        forall|j: int| k < j < s.len() ==> is_ws(s[j]),
        !is_ws(s[k]),
    ensures
        trailing_ws(s) == s.len() - 1 - k,
    decreases s.len(),
{
    if k < s.len() - 1 {
        lemma_trailing_ws_step(s.drop_last(), k);
    }
}

proof fn lemma_trailing_ws_all(s: Seq<char>)
    requires
        forall|j: int| 0 <= j < s.len() ==> is_ws(s[j]),
    ensures
        trailing_ws(s) == s.len(),
    decreases s.len(),
{
    if s.len() > 0 {
        lemma_trailing_ws_all(s.drop_last());
    }
}

/// Remove leading and trailing whitespace, as `str::trim`.
pub fn trim(s: &str) -> (r: &str)
    ensures
        r@ == trimmed(s@),
{
    let n = s.unicode_len();
    let mut a: usize = 0;
    while a < n && is_whitespace(s.get_char(a))
        invariant
            n == s@.len(),
            a <= n,
            forall|j: int| 0 <= j < a ==> is_ws(s@[j]),
        decreases n - a,
    {
        a = a + 1;
    }
    proof {
        if a < n {
            lemma_leading_ws_step(s@, a as int);
        } else {
            lemma_leading_ws_all(s@);
        }
    }
    let ghost t = s@.skip(a as int);
    let mut b: usize = n;
    while b > a && is_whitespace(s.get_char(b - 1))
        invariant
            n == s@.len(),
            a <= b <= n,
            t == s@.skip(a as int),
            forall|j: int| b <= j < n ==> is_ws(s@[j]),
        decreases b - a,
    {
        b = b - 1;
    }
    proof {
        if b > a {
            lemma_trailing_ws_step(t, b - 1 - a);
        } else {
            lemma_trailing_ws_all(t);
        }
    }
    s.substring_char(a, b)
}

/// `s` has `p` at position `i`.
pub open spec fn occurs_at(s: Seq<char>, p: Seq<char>, i: int) -> bool {
    0 <= i && i + p.len() <= s.len() && s.subrange(i, i + p.len()) == p
}

/// `s` contains `p` somewhere, as `str::contains`.
pub open spec fn contains_text(s: Seq<char>, p: Seq<char>) -> bool {
    exists|i: int| occurs_at(s, p, i)
}

/// Whether `p` occurs at position `i` of `s`.
fn matches_at(s: &str, n: usize, p: &str, m: usize, i: usize) -> (r: bool)
    requires
        n == s@.len(),
        m == p@.len(),
        i + m <= n,
    ensures
        r == occurs_at(s@, p@, i as int),
{
    let mut k: usize = 0;
    while k < m
        invariant
            n == s@.len(),
            m == p@.len(),
            i + m <= n,
            k <= m,
            forall|j: int| 0 <= j < k ==> s@[i + j] == p@[j],
        decreases m - k,
    {
        if s.get_char(i + k) != p.get_char(k) {
            assert(s@.subrange(i as int, i + m)[k as int] != p@[k as int]);
            return false;
        }
        k = k + 1;
    }
    assert(s@.subrange(i as int, i + m) =~= p@);
    true
}

/// Whether `s` contains `p`, as `str::contains`.
pub fn contains(s: &str, p: &str) -> (r: bool)
    ensures
        r == contains_text(s@, p@),
{
    let n = s.unicode_len();
    let m = p.unicode_len();
    if m > n {
        return false;
    }
    if m == 0 {
        assert(s@.subrange(0, 0) =~= p@);
        assert(occurs_at(s@, p@, 0));
        return true;
    }
    let mut i: usize = 0;
    while i <= n - m
        invariant
            n == s@.len(),
            m == p@.len(),
            1 <= m <= n,
            i <= n - m + 1,
            forall|j: int| 0 <= j < i ==> !occurs_at(s@, p@, j),
        decreases n - m + 1 - i,
    {
        if matches_at(s, n, p, m, i) {
            return true;
        }
        i = i + 1;
    }
    false
}

/// `r` before, between and after the characters of `s`: what
/// `str::replace` gives for an empty pattern.
pub open spec fn interleaved(s: Seq<char>, r: Seq<char>) -> Seq<char>
    decreases s.len(),
{
    if s.len() == 0 {
        r
    } else {
        interleaved(s.drop_last(), r) + seq![s.last()] + r
    }
}

/// `s` with every non-overlapping occurrence of `p` (scanning left to
/// right) replaced by `r`, as `str::replace`; an empty pattern matches
/// before, between and after the characters.
pub open spec fn replaced(s: Seq<char>, p: Seq<char>, r: Seq<char>) -> Seq<char>
    decreases s.len(),
{
    if p.len() == 0 {
        interleaved(s, r)
    } else if s.len() < p.len() {
        s
    } else if s.take(p.len() as int) == p {
        r + replaced(s.skip(p.len() as int), p, r)
    } else {
        seq![s[0]] + replaced(s.skip(1), p, r)
    }
}

proof fn lemma_replaced_no_match(s: Seq<char>, p: Seq<char>, r: Seq<char>, i: int, j: int)
    requires
        0 < p.len(),
        0 <= i <= j <= s.len(),
        forall|k: int| i <= k < j ==> !occurs_at(s, p, k),
        j + p.len() <= s.len() || j == s.len() || s.len() - j < p.len(),
    ensures
        replaced(s.skip(i), p, r) == s.subrange(i, j) + replaced(s.skip(j), p, r),
    decreases j - i,
{
    if i == j {
        assert(s.subrange(i, j) =~= Seq::<char>::empty());
        assert(Seq::<char>::empty() + replaced(s.skip(j), p, r) =~= replaced(s.skip(j), p, r));
    } else {
        let t = s.skip(i);
        assert(t.skip(1) =~= s.skip(i + 1));
        if t.len() >= p.len() {
            assert(t.take(p.len() as int) =~= s.subrange(i, i + p.len()));
            assert(!occurs_at(s, p, i));
        }
        lemma_replaced_no_match(s, p, r, i + 1, j);
        assert(seq![s[i]] + s.subrange(i + 1, j) =~= s.subrange(i, j));
        assert(t[0] == s[i]);
    }
}

/// Put `r` before, between and after the characters of `s`.
fn interleave(s: &str, n: usize, r: &str) -> (out: String)
    requires
        n == s@.len(),
    ensures
        out@ == interleaved(s@, r@),
{
    let mut out = r.to_owned();
    let mut i: usize = 0;
    assert(s@.take(0) =~= Seq::<char>::empty());
    while i < n
        invariant
            n == s@.len(),
            i <= n,
            out@ == interleaved(s@.take(i as int), r@),
        decreases n - i,
    {
        assert(s@.take(i + 1).drop_last() =~= s@.take(i as int));
        let c = s.substring_char(i, i + 1);
        out.append(c);
        out.append(r);
        assert(c@ =~= seq![s@.take(i + 1).last()]);
        i = i + 1;
    }
    assert(s@.take(n as int) =~= s@);
    out
}

/// Replace every occurrence of the pattern `p` by `r`, as `str::replace`.
pub fn replace_all(s: &str, p: &str, r: &str) -> (out: String)
    ensures
        out@ == replaced(s@, p@, r@),
{
    let n = s.unicode_len();
    let m = p.unicode_len();
    if m == 0 {
        return interleave(s, n, r);
    }
    let mut out = String::new();
    let mut last: usize = 0;
    let mut i: usize = 0;
    assert(s@.skip(0) =~= s@);
    while i < n
        invariant
            n == s@.len(),
            m == p@.len(),
            m > 0,
            last <= i <= n,
            out@ + s@.subrange(last as int, i as int) + replaced(s@.skip(i as int), p@, r@)
                == replaced(s@, p@, r@),
        decreases n - i,
    {
        if m <= n - i && matches_at(s, n, p, m, i) {
            let seg = s.substring_char(last, i);
            out.append(seg);
            out.append(r);
            proof {
                let t = s@.skip(i as int);
                assert(t.take(m as int) =~= s@.subrange(i as int, i + m));
                assert(t.skip(m as int) =~= s@.skip(i + m));
                assert(s@.subrange(i + m, i + m) =~= Seq::<char>::empty());
            }
            i = i + m;
            last = i;
            assert(out@ + s@.subrange(last as int, i as int) =~= out@);
        } else {
            proof {
                let t = s@.skip(i as int);
                if i + m <= n {
                    assert(t.take(m as int) =~= s@.subrange(i as int, i + m));
                }
                assert(t.skip(1) =~= s@.skip(i + 1));
                assert(s@.subrange(last as int, i as int) + seq![s@[i as int]]
                    =~= s@.subrange(last as int, i + 1));
            }
            i = i + 1;
        }
    }
    let tail = s.substring_char(last, n);
    out.append(tail);
    proof {
        assert(s@.skip(n as int) =~= Seq::<char>::empty());
    }
    out
}

/// The pieces joined with `sep` between neighbours, as `[String]::join`.
pub open spec fn joined(pieces: Seq<Seq<char>>, sep: Seq<char>) -> Seq<char>
    decreases pieces.len(),
{
    if pieces.len() == 0 {
        Seq::empty()
    } else if pieces.len() == 1 {
        pieces[0]
    } else {
        joined(pieces.drop_last(), sep) + sep + pieces.last()
    }
}

/// The views of a list of strings.
pub open spec fn views(v: Seq<String>) -> Seq<Seq<char>> {
    v.map_values(|x: String| x@)
}

/// Join strings with a separator, as `[String]::join`.
pub fn join(pieces: &Vec<String>, sep: &str) -> (r: String)
    ensures
        r@ == joined(views(pieces@), sep@),
{
    let mut r = String::new();
    let mut i: usize = 0;
    while i < pieces.len()
        invariant
            i <= pieces.len(),
            r@ == joined(views(pieces@).take(i as int), sep@),
        decreases pieces.len() - i,
    {
        assert(views(pieces@).take(i as int + 1).drop_last() =~= views(pieces@).take(i as int));
        if i > 0 {
            r.append(sep);
        } else {
            assert(r@ + pieces@[0]@ =~= pieces@[0]@);
        }
        r.append(pieces[i].as_str());
        i = i + 1;
    }
    assert(views(pieces@).take(pieces.len() as int) =~= views(pieces@));
    r
}

/// Whether a text starts with the given character, as `str::starts_with`.
pub fn starts_with_char(s: &str, c: char) -> (r: bool)
    ensures
        r == (s@.len() > 0 && s@[0] == c),
{
    if s.unicode_len() == 0 {
        false
    } else {
        s.get_char(0) == c
    }
}

/// Whether `s` begins with `p`.
pub open spec fn has_prefix(s: Seq<char>, p: Seq<char>) -> bool {
    p.len() <= s.len() && s.take(p.len() as int) == p
}

/// Whether `s` ends with `p`.
pub open spec fn has_suffix(s: Seq<char>, p: Seq<char>) -> bool {
    p.len() <= s.len() && s.skip(s.len() - p.len()) == p
}

/// `s` without the prefix `p`, when it starts with it, as `str::strip_prefix`.
pub fn strip_prefix<'a>(s: &'a str, p: &str) -> (r: Option<&'a str>)
    ensures
        r is Some <==> has_prefix(s@, p@),
        r matches Some(t) ==> t@ == s@.skip(p@.len() as int),
{
    let n = s.unicode_len();
    let m = p.unicode_len();
    if m > n {
        return None;
    }
    if matches_at(s, n, p, m, 0) {
        assert(s@.subrange(0, m as int) =~= s@.take(m as int));
        Some(s.substring_char(m, n))
    } else {
        assert(s@.subrange(0, m as int) =~= s@.take(m as int));
        None
    }
}

/// `s` without the suffix `p`, when it ends with it, as `str::strip_suffix`.
pub fn strip_suffix<'a>(s: &'a str, p: &str) -> (r: Option<&'a str>)
    ensures
        r is Some <==> has_suffix(s@, p@),
        r matches Some(t) ==> t@ == s@.take(s@.len() - p@.len()),
{
    let n = s.unicode_len();
    let m = p.unicode_len();
    if m > n {
        return None;
    }
    if matches_at(s, n, p, m, n - m) {
        assert(s@.subrange((n - m) as int, n as int) =~= s@.skip(n - m));
        Some(s.substring_char(0, n - m))
    } else {
        assert(s@.subrange((n - m) as int, n as int) =~= s@.skip(n - m));
        None
    }
}

/// Number of leading characters that are not whitespace.
pub open spec fn word_len(s: Seq<char>) -> nat
    decreases s.len(),
{
    if s.len() > 0 && !is_ws(s[0]) {
        1 + word_len(s.drop_first())
    } else {
        0
    }
}

/// The first whitespace-separated word, as `split_whitespace().next()`.
pub open spec fn first_word(s: Seq<char>) -> Option<Seq<char>> {
    let t = s.skip(leading_ws(s) as int);
    if t.len() == 0 {
        None
    } else {
        Some(t.take(word_len(t) as int))
    }
}

proof fn lemma_word_len_step(s: Seq<char>, i: int)
    requires
        0 <= i < s.len(),
        forall|j: int| 0 <= j < i ==> !is_ws(s[j]),
        is_ws(s[i]),
    ensures
        word_len(s) == i,
    decreases i,
{
    if i > 0 {
        lemma_word_len_step(s.drop_first(), i - 1);
    }
}

proof fn lemma_word_len_all(s: Seq<char>)
    requires
        forall|j: int| 0 <= j < s.len() ==> !is_ws(s[j]),
    ensures
        word_len(s) == s.len(),
    decreases s.len(),
{
    if s.len() > 0 {
        lemma_word_len_all(s.drop_first());
    }
}

/// The first whitespace-separated word of a text, if it has one.
pub fn first_word_of(s: &str) -> (r: Option<&str>)
    ensures
        match r {
            Some(w) => first_word(s@) == Some(w@),
            None => first_word(s@) is None,
        },
{
    let n = s.unicode_len();
    let mut a: usize = 0;
    while a < n && is_whitespace(s.get_char(a))
        invariant
            n == s@.len(),
            a <= n,
            forall|j: int| 0 <= j < a ==> is_ws(s@[j]),
        decreases n - a,
    {
        a = a + 1;
    }
    proof {
        if a < n {
            lemma_leading_ws_step(s@, a as int);
        } else {
            lemma_leading_ws_all(s@);
        }
    }
    let ghost t = s@.skip(a as int);
    if a == n {
        return None;
    }
    let mut b: usize = a;
    while b < n && !is_whitespace(s.get_char(b))
        invariant
            n == s@.len(),
            a <= b <= n,
            t == s@.skip(a as int),
            forall|j: int| a <= j < b ==> !is_ws(s@[j]),
        decreases n - b,
    {
        b = b + 1;
    }
    proof {
        if b < n {
            lemma_word_len_step(t, b - a);
        } else {
            lemma_word_len_all(t);
        }
        assert(s@.subrange(a as int, b as int) =~= t.take(b - a));
    }
    Some(s.substring_char(a, b))
}

} // verus!
