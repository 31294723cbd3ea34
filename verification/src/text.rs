//! Character-level text operations on type strings: whitespace trimming,
//! separator search and splitting, as `str::trim`, `str::contains` and
//! `str::split` do them.

use vstd::prelude::*;

verus! {

/// The characters of Unicode's White_Space property (`char::is_whitespace`).
pub open spec fn is_ws(c: char) -> bool {
    c == '\t' || c == '\n' || c == '\u{0B}' || c == '\u{0C}' || c == '\r' || c == ' ' || c
        == '\u{85}' || c == '\u{A0}' || c == '\u{1680}' || ('\u{2000}' <= c && c <= '\u{200A}') || c
        == '\u{2028}' || c == '\u{2029}' || c == '\u{202F}' || c == '\u{205F}' || c == '\u{3000}'
}

/// First position at or after `i` that does not hold whitespace (or the length).
pub open spec fn lo_from(s: Seq<char>, i: int) -> int
    decreases s.len() - i,
{
    if i >= s.len() {
        s.len() as int
    } else if is_ws(s[i]) {
        lo_from(s, i + 1)
    } else {
        i
    }
}

/// One past the last position before `j` that does not hold whitespace (or 0).
pub open spec fn hi_from(s: Seq<char>, j: int) -> int
    decreases j,
{
    if j <= 0 {
        0
    } else if is_ws(s[j - 1]) {
        hi_from(s, j - 1)
    } else {
        j
    }
}

/// `s` without leading and trailing whitespace.
pub open spec fn trim(s: Seq<char>) -> Seq<char> {
    let lo = lo_from(s, 0);
    let hi = hi_from(s, s.len() as int);
    if lo >= hi {
        Seq::empty()
    } else {
        s.subrange(lo, hi)
    }
}

/// Whether `sep` occurs in `s` at position `i`.
pub open spec fn occurs_at(s: Seq<char>, sep: Seq<char>, i: int) -> bool {
    0 <= i && i + sep.len() <= s.len() && s.subrange(i, i + sep.len()) == sep
}

/// Leftmost occurrence of `sep` in `s` at or after position `i`.
pub open spec fn find_from(s: Seq<char>, sep: Seq<char>, i: int) -> Option<int>
    decreases s.len() + 1 - i,
{
    if i < 0 || i + sep.len() > s.len() {
        None
    } else if occurs_at(s, sep, i) {
        Some(i)
    } else {
        find_from(s, sep, i + 1)
    }
}

/// Whether `sep` occurs in `s`.
pub open spec fn contains(s: Seq<char>, sep: Seq<char>) -> bool {
    find_from(s, sep, 0) is Some
}

pub proof fn lemma_find_from(s: Seq<char>, sep: Seq<char>, i: int)
    requires
        0 <= i,
    ensures
        find_from(s, sep, i) matches Some(k) ==> i <= k && occurs_at(s, sep, k) && forall|m: int|
            i <= m < k ==> !#[trigger] occurs_at(s, sep, m),
        find_from(s, sep, i) is None ==> forall|m: int| i <= m ==> !#[trigger] occurs_at(s, sep, m),
    decreases s.len() + 1 - i,
{
    if i + sep.len() > s.len() {
    } else if !occurs_at(s, sep, i) {
        lemma_find_from(s, sep, i + 1);
    }
}

/// The pieces of `s[start..]` between the occurrences of `sep`, leftmost first.
pub open spec fn split_from(s: Seq<char>, sep: Seq<char>, start: int) -> Seq<Seq<char>>
    recommends
        sep.len() > 0,
    decreases s.len() - start,
{
    if sep.len() == 0 || start < 0 || start > s.len() {
        seq![s.subrange(start, s.len() as int)]
    } else {
        match find_from(s, sep, start) {
            None => seq![s.subrange(start, s.len() as int)],
            Some(k) => if k < start || k + sep.len() > s.len() {
                Seq::empty()
            } else {
                seq![s.subrange(start, k)] + split_from(s, sep, k + sep.len())
            },
        }
    }
}

/// The pieces of `s` between the occurrences of `sep` (`str::split`).
pub open spec fn split(s: Seq<char>, sep: Seq<char>) -> Seq<Seq<char>> {
    split_from(s, sep, 0)
}

/// Views of a list of character vectors.
pub open spec fn views_of(v: Seq<Vec<char>>) -> Seq<Seq<char>> {
    Seq::new(v.len(), |i: int| v[i]@)
}

/// The characters of a string.
pub fn chars_of(s: &str) -> (r: Vec<char>)
    ensures
        r@ == s@,
{
    let n = s.unicode_len();
    let mut out: Vec<char> = Vec::new();
    let mut i: usize = 0;
    while i < n
        invariant
            n == s@.len(),
            i <= n,
            out@ == s@.subrange(0, i as int),
        decreases n - i,
    {
        out.push(s.get_char(i));
        i = i + 1;
        assert(out@ =~= s@.subrange(0, i as int));
    }
    assert(out@ =~= s@);
    out
}

/// Whether a character vector spells the given string.
pub fn chars_equal(v: &[char], s: &str) -> (r: bool)
    ensures
        r == (v@ == s@),
{
    let n = s.unicode_len();
    if v.len() != n {
        return false;
    }
    let mut i: usize = 0;
    while i < n
        invariant
            n == s@.len(),
            n == v@.len(),
            i <= n,
            forall|j: int| 0 <= j < i ==> v@[j] == s@[j],
        decreases n - i,
    {
        if v[i] != s.get_char(i) {
            return false;
        }
        i = i + 1;
    }
    assert(v@ =~= s@);
    true
}

/// `char::is_whitespace`.
pub fn char_is_ws(c: char) -> (r: bool)
    ensures
        r == is_ws(c),
{
    c == '\t' || c == '\n' || c == '\u{0B}' || c == '\u{0C}' || c == '\r' || c == ' ' || c
        == '\u{85}' || c == '\u{A0}' || c == '\u{1680}' || ('\u{2000}' <= c && c <= '\u{200A}') || c
        == '\u{2028}' || c == '\u{2029}' || c == '\u{202F}' || c == '\u{205F}' || c == '\u{3000}'
}

/// A copy of `v[lo..hi]`.
pub fn sub_chars(v: &[char], lo: usize, hi: usize) -> (r: Vec<char>)
    requires
        lo <= hi <= v@.len(),
    ensures
        r@ == v@.subrange(lo as int, hi as int),
{
    let mut out: Vec<char> = Vec::new();
    let mut i: usize = lo;
    while i < hi
        invariant
            lo <= i <= hi,
            hi <= v@.len(),
            out@ == v@.subrange(lo as int, i as int),
        decreases hi - i,
    {
        out.push(v[i]);
        i = i + 1;
        assert(out@ =~= v@.subrange(lo as int, i as int));
    }
    out
}

/// `s` without leading and trailing whitespace (`str::trim`).
pub fn trim_chars(v: &[char]) -> (r: Vec<char>)
    ensures
        r@ == trim(v@),
{
    let n = v.len();
    let mut lo: usize = 0;
    while lo < n && char_is_ws(v[lo])
        invariant
            n == v@.len(),
            lo <= n,
            lo_from(v@, lo as int) == lo_from(v@, 0),
        decreases n - lo,
    {
        lo = lo + 1;
    }
    let mut hi: usize = n;
    while hi > 0 && char_is_ws(v[hi - 1])
        invariant
            n == v@.len(),
            hi <= n,
            hi_from(v@, hi as int) == hi_from(v@, n as int),
        decreases hi,
    {
        hi = hi - 1;
    }
    if lo >= hi {
        Vec::new()
    } else {
        sub_chars(v, lo, hi)
    }
}

/// Whether `sep` occurs at position `i` of `v`.
fn occurs_at_exec(v: &[char], sep: &[char], i: usize) -> (r: bool)
    ensures
        r == occurs_at(v@, sep@, i as int),
{
    if i > v.len() || sep.len() > v.len() - i {
        return false;
    }
    let mut j: usize = 0;
    while j < sep.len()
        invariant
            i + sep@.len() <= v@.len(),
            v@.len() == v.len(),
            j <= sep@.len(),
            forall|m: int| 0 <= m < j ==> v@[i + m] == sep@[m],
        decreases sep@.len() - j,
    {
        if v[i + j] != sep[j] {
            assert(v@.subrange(i as int, i + sep@.len())[j as int] != sep@[j as int]);
            return false;
        }
        j = j + 1;
    }
    assert(v@.subrange(i as int, i + sep@.len()) =~= sep@);
    true
}

/// Leftmost occurrence of `sep` in `v` at or after `start`.
pub fn find_chars(v: &[char], sep: &[char], start: usize) -> (r: Option<usize>)
    ensures
        r matches Some(k) ==> find_from(v@, sep@, start as int) == Some(k as int),
        r is None ==> find_from(v@, sep@, start as int) is None,
{
    let mut i: usize = start;
    while i <= v.len() && sep.len() <= v.len() - i
        invariant
            start <= i,
            find_from(v@, sep@, i as int) == find_from(v@, sep@, start as int),
        decreases v@.len() + 1 - i,
    {
        if occurs_at_exec(v, sep, i) {
            return Some(i);
        }
        if i == v.len() {
            assert(find_from(v@, sep@, i + 1) is None);
            return None;
        }
        i = i + 1;
    }
    None
}

/// Whether `sep` occurs in `v` (`str::contains`).
pub fn contains_chars(v: &[char], sep: &[char]) -> (r: bool)
    ensures
        r == contains(v@, sep@),
{
    find_chars(v, sep, 0).is_some()
}

/// The pieces of `v` between the occurrences of a non-empty `sep`
/// (`str::split`), leftmost first.
pub fn split_chars(v: &[char], sep: &[char]) -> (r: Vec<Vec<char>>)
    requires
        sep@.len() > 0,
    ensures
        views_of(r@) == split(v@, sep@),
{
    let mut out: Vec<Vec<char>> = Vec::new();
    let mut start: usize = 0;
    loop
        invariant
            sep@.len() > 0,
            start <= v@.len(),
            views_of(out@) + split_from(v@, sep@, start as int) == split(v@, sep@),
        decreases v@.len() - start,
    {
        let ghost rest = split_from(v@, sep@, start as int);
        match find_chars(v, sep, start) {
            None => {
                let piece = sub_chars(v, start, v.len());
                let ghost before = views_of(out@);
                out.push(piece);
                assert(views_of(out@) =~= before + seq![piece@]);
                assert(rest == seq![v@.subrange(start as int, v@.len() as int)]);
                return out;
            },
            Some(k) => {
                proof {
                    lemma_find_from(v@, sep@, start as int);
                }
                let piece = sub_chars(v, start, k);
                let ghost before = views_of(out@);
                out.push(piece);
                assert(views_of(out@) =~= before + seq![piece@]);
                assert(occurs_at(v@, sep@, k as int));
                assert(k + sep@.len() <= v.len());
                let next = k + sep.len();
                assert(rest == seq![v@.subrange(start as int, k as int)] + split_from(
                    v@,
                    sep@,
                    next as int,
                ));
                assert(views_of(out@) + split_from(v@, sep@, next as int) =~= before + rest);
                start = next;
            },
        }
    }
}


/// `String::push`: appends one character.
#[verifier::external_body]
fn push_char(s: &mut String, c: char)
    ensures
        final(s)@ == old(s)@.push(c),
{
    s.push(c);
}

/// The string spelled by a character vector.
pub fn string_of(v: &[char]) -> (r: String)
    ensures
        r@ == v@,
{
    let mut out = String::new();
    let mut i: usize = 0;
    while i < v.len()
        invariant
            i <= v@.len(),
            out@ == v@.subrange(0, i as int),
        decreases v@.len() - i,
    {
        push_char(&mut out, v[i]);
        i = i + 1;
        assert(out@ =~= v@.subrange(0, i as int));
    }
    assert(out@ =~= v@);
    out
}

/// The decimal digit `d` (for `d` below ten).
pub open spec fn digit_char(d: nat) -> char {
    if d == 0 { '0' }
    else if d == 1 { '1' }
    else if d == 2 { '2' }
    else if d == 3 { '3' }
    else if d == 4 { '4' }
    else if d == 5 { '5' }
    else if d == 6 { '6' }
    else if d == 7 { '7' }
    else if d == 8 { '8' }
    else { '9' }
}

/// The decimal numeral of `n`, without leading zeros.
pub open spec fn decimal(n: nat) -> Seq<char>
    decreases n,
{
    if n < 10 {
        seq![digit_char(n)]
    } else {
        decimal(n / 10).push(digit_char(n % 10))
    }
}

fn digit(d: usize) -> (c: char)
    requires
        d < 10,
    ensures
        c == digit_char(d as nat),
{
    if d == 0 { '0' }
    else if d == 1 { '1' }
    else if d == 2 { '2' }
    else if d == 3 { '3' }
    else if d == 4 { '4' }
    else if d == 5 { '5' }
    else if d == 6 { '6' }
    else if d == 7 { '7' }
    else if d == 8 { '8' }
    else { '9' }
}

/// The decimal numeral of `n`.
pub fn decimal_string(n: usize) -> (r: String)
    ensures
        r@ == decimal(n as nat),
    decreases n,
{
    if n < 10 {
        let mut s = String::new();
        push_char(&mut s, digit(n));
        assert(s@ =~= seq![digit_char(n as nat)]);
        s
    } else {
        let mut s = decimal_string(n / 10);
        push_char(&mut s, digit(n % 10));
        s
    }
}

} // verus!
