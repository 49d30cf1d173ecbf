use vstd::prelude::*;

verus! {

/// Position of the first `sep` in `s`, or the length of `s` when there is none.
pub open spec fn sep_index(s: Seq<char>, sep: char) -> nat
    decreases s.len(),
{
    if s.len() == 0 {
        0
    } else if s[0] == sep {
        0
    } else {
        1 + sep_index(s.drop_first(), sep)
    }
}

/// What comes before the first `sep` (all of `s` when there is none): the first
/// piece that splitting `s` at `sep` yields.
pub open spec fn first_piece(s: Seq<char>, sep: char) -> Seq<char> {
    s.take(sep_index(s, sep) as int)
}

/// What follows the first `sep`.
pub open spec fn rest_after(s: Seq<char>, sep: char) -> Seq<char> {
    s.skip(sep_index(s, sep) + 1int)
}

/// The second piece that splitting `s` at `sep` yields, where `s` holds `sep`.
pub open spec fn second_piece(s: Seq<char>, sep: char) -> Seq<char> {
    first_piece(rest_after(s, sep), sep)
}

pub proof fn lemma_sep_index_bounds(s: Seq<char>, sep: char)
    ensures
        sep_index(s, sep) <= s.len(),
        forall|j: int| 0 <= j < sep_index(s, sep) ==> s[j] != sep,
        sep_index(s, sep) < s.len() ==> s[sep_index(s, sep) as int] == sep,
        s.contains(sep) <==> sep_index(s, sep) < s.len(),
    decreases s.len(),
{
    if s.len() > 0 && s[0] != sep {
        lemma_sep_index_bounds(s.drop_first(), sep);
        assert forall|j: int| 0 <= j < sep_index(s, sep) implies s[j] != sep by {
            if j > 0 {
                assert(s[j] == s.drop_first()[j - 1]);
            }
        }
        if s.contains(sep) {
            let k = choose|k: int| 0 <= k < s.len() && s[k] == sep;
            assert(s.drop_first()[k - 1] == sep);
        }
        if s.drop_first().contains(sep) {
            let k = choose|k: int| 0 <= k < s.drop_first().len() && s.drop_first()[k] == sep;
            assert(s[k + 1] == sep);
        }
    } else if s.len() > 0 {
        assert(s[0] == sep);
    }
}

/// Any position before which `sep` does not occur and at which it does (or the
/// end) is the first occurrence.
pub proof fn lemma_sep_index_unique(s: Seq<char>, sep: char, p: int)
    requires
        0 <= p <= s.len(),
        forall|j: int| 0 <= j < p ==> s[j] != sep,
        p < s.len() ==> s[p] == sep,
    ensures
        sep_index(s, sep) == p,
    decreases s.len(),
{
    if s.len() > 0 && p > 0 {
        assert forall|j: int| 0 <= j < p - 1 implies s.drop_first()[j] != sep by {
            assert(s[j + 1] != sep);
        }
        lemma_sep_index_unique(s.drop_first(), sep, p - 1);
    }
}

/// The position of the first `sep` in `s`, or its length when there is none.
pub fn find_char(s: &str, sep: char) -> (r: usize)
    ensures
        r == sep_index(s@, sep),
{
    let n = s.unicode_len();
    let mut i: usize = 0;
    while i < n && s.get_char(i) != sep
        invariant
            n == s@.len(),
            i <= n,
            forall|j: int| 0 <= j < i ==> s@[j] != sep,
        decreases n - i,
    {
        i = i + 1;
    }
    proof {
        lemma_sep_index_unique(s@, sep, i as int);
    }
    i
}

/// Splits `s` at its first `sep`: the piece before it and, where `s` holds
/// `sep`, the piece between it and the next `sep` (or the end).
pub fn split_pair(s: &str, sep: char) -> (r: (String, Option<String>))
    ensures
        r.0@ == first_piece(s@, sep),
        r.1 is Some <==> s@.contains(sep),
        r.1 matches Some(t) ==> t@ == second_piece(s@, sep),
{
    proof {
        lemma_sep_index_bounds(s@, sep);
    }
    let n = s.unicode_len();
    let i = find_char(s, sep);
    let first = String::from_str(s.substring_char(0, i));
    if i < n {
        let rest = s.substring_char(i + 1, n);
        assert(rest@ =~= rest_after(s@, sep));
        let j = find_char(rest, sep);
        proof {
            lemma_sep_index_bounds(rest@, sep);
        }
        let second = String::from_str(rest.substring_char(0, j));
        assert(second@ =~= second_piece(s@, sep));
        assert(first@ =~= first_piece(s@, sep));
        (first, Some(second))
    } else {
        assert(first@ =~= first_piece(s@, sep));
        (first, None)
    }
}

/// Whether `s` holds the character `c`.
pub fn has_char(s: &str, c: char) -> (r: bool)
    ensures
        r == s@.contains(c),
{
    proof {
        lemma_sep_index_bounds(s@, c);
    }
    find_char(s, c) < s.unicode_len()
}

/// Whether two texts are equal.
pub fn same_text(a: &str, b: &str) -> (r: bool)
    ensures
        r == (a@ == b@),
{
    let n = a.unicode_len();
    if n != b.unicode_len() {
        return false;
    }
    let mut i: usize = 0;
    while i < n
        invariant
            n == a@.len(),
            n == b@.len(),
            i <= n,
            forall|j: int| 0 <= j < i ==> a@[j] == b@[j],
        decreases n - i,
    {
        if a.get_char(i) != b.get_char(i) {
            return false;
        }
        i = i + 1;
    }
    assert(a@ =~= b@);
    true
}

/// A copy of an optional text.
pub fn copy_opt(s: &Option<String>) -> (r: Option<String>)
    ensures
        r is Some <==> s is Some,
        r matches Some(t) ==> t@ == s->0@,
{
    match s {
        Some(t) => Some(t.clone()),
        None => None,
    }
}

/// The view of an optional text.
pub open spec fn opt_view(s: Option<String>) -> Option<Seq<char>> {
    match s {
        Some(t) => Some(t@),
        None => None,
    }
}


/// Whether `c` is white space in Unicode's sense (the `White_Space` property).
pub open spec fn is_space(c: char) -> bool {
    c == ' ' || ('\u{9}' <= c <= '\u{d}') || c == '\u{85}' || c == '\u{a0}' || c == '\u{1680}'
        || ('\u{2000}' <= c <= '\u{200a}') || c == '\u{2028}' || c == '\u{2029}' || c
        == '\u{202f}' || c == '\u{205f}' || c == '\u{3000}'
}

/// The number of white space characters that `s` starts with.
pub open spec fn leading_space(s: Seq<char>) -> nat
    decreases s.len(),
{
    if s.len() == 0 {
        0
    } else if is_space(s[0]) {
        1 + leading_space(s.drop_first())
    } else {
        0
    }
}

/// The number of white space characters that `s` ends with.
pub open spec fn trailing_space(s: Seq<char>) -> nat
    decreases s.len(),
{
    if s.len() == 0 {
        0
    } else if is_space(s.last()) {
        1 + trailing_space(s.drop_last())
    } else {
        0
    }
}

/// `s` without its leading and trailing white space.
pub open spec fn trimmed(s: Seq<char>) -> Seq<char> {
    let a = leading_space(s) as int;
    if a == s.len() {
        Seq::empty()
    } else {
        s.subrange(a, s.len() - trailing_space(s))
    }
}

pub proof fn lemma_leading_space(s: Seq<char>, p: int)
    requires
        0 <= p <= s.len(),
        forall|j: int| 0 <= j < p ==> is_space(s[j]),
        p < s.len() ==> !is_space(s[p]),
    ensures
        leading_space(s) == p,
    decreases s.len(),
{
    if s.len() > 0 && p > 0 {
        assert forall|j: int| 0 <= j < p - 1 implies is_space(s.drop_first()[j]) by {
            assert(is_space(s[j + 1]));
        }
        lemma_leading_space(s.drop_first(), p - 1);
    }
}

pub proof fn lemma_trailing_space(s: Seq<char>, p: int)
    requires
        0 <= p <= s.len(),
        forall|j: int| p <= j < s.len() ==> is_space(s[j]),
        p > 0 ==> !is_space(s[p - 1]),
    ensures
        trailing_space(s) == s.len() - p,
    decreases s.len(),
{
    if s.len() > 0 && p < s.len() {
        assert forall|j: int| p <= j < s.drop_last().len() implies is_space(s.drop_last()[j]) by {
            assert(is_space(s[j]));
        }
        lemma_trailing_space(s.drop_last(), p);
    }
}

/// Whether `c` is white space.
pub fn char_is_space(c: char) -> (r: bool)
    ensures
        r == is_space(c),
{
    c == ' ' || ('\u{9}' <= c && c <= '\u{d}') || c == '\u{85}' || c == '\u{a0}' || c
        == '\u{1680}' || ('\u{2000}' <= c && c <= '\u{200a}') || c == '\u{2028}' || c
        == '\u{2029}' || c == '\u{202f}' || c == '\u{205f}' || c == '\u{3000}'
}

/// `s` without its leading and trailing white space.
pub fn trim_text(s: &str) -> (r: String)
    ensures
        r@ == trimmed(s@),
{
    let n = s.unicode_len();
    let mut i: usize = 0;
    while i < n && char_is_space(s.get_char(i))
        invariant
            n == s@.len(),
            i <= n,
            forall|j: int| 0 <= j < i ==> is_space(s@[j]),
        decreases n - i,
    {
        i = i + 1;
    }
    proof {
        lemma_leading_space(s@, i as int);
    }
    if i == n {
        return String::new();
    }
    let mut e: usize = n;
    while e > i && char_is_space(s.get_char(e - 1))
        invariant
            n == s@.len(),
            i < n,
            i <= e <= n,
            !is_space(s@[i as int]),
            forall|j: int| e <= j < n ==> is_space(s@[j]),
        decreases e,
    {
        e = e - 1;
    }
    proof {
        lemma_trailing_space(s@, e as int);
    }
    String::from_str(s.substring_char(i, e))
}

/// Name for what `str::to_lowercase` returns: each character replaced by its
/// lower-case mapping in Unicode.
pub uninterp spec fn lowercase(s: Seq<char>) -> Seq<char>;

/// Whether every character of `s` is ASCII.
pub open spec fn ascii_text(s: Seq<char>) -> bool {
    forall|i: int| 0 <= i < s.len() ==> (#[trigger] s[i] as u32) < 128
}

/// The ASCII lower-case form of `c`: `A`..`Z` become `a`..`z`.
pub open spec fn ascii_lower(c: char) -> char {
    if 'A' <= c <= 'Z' {
        ((c as u32) + 32) as char
    } else {
        c
    }
}

/// The lower-case form of `s`: for ASCII text the letters `A`..`Z` become
/// `a`..`z` and nothing else changes; other text takes Unicode's mapping.
pub open spec fn casefold(s: Seq<char>) -> Seq<char> {
    if ascii_text(s) {
        s.map_values(|c: char| ascii_lower(c))
    } else {
        lowercase(s)
    }
}

/// Calls `str::to_lowercase`. The contract claims that ASCII text has its
/// letters `A`..`Z` lowered and nothing else changed, and that other text
/// gets the lower-case form that std computes from `s` alone; the Unicode
/// mapping itself is not written out.
#[verifier::external_body]
pub fn lowercase_text(s: &str) -> (r: String)
    ensures
        ascii_text(s@) ==> r@ == s@.map_values(|c: char| ascii_lower(c)),
        !ascii_text(s@) ==> r@ == lowercase(s@),
{
    s.to_lowercase()
}

} // verus!
