//! Text as sequences of characters: trimming, substring search with and
//! without regard to letter case, and the first line of a text.
//!
//! Every function here is stated over `Seq<char>`, the view of `str` and
//! `String`. The executable functions work on slices of `char`;
//! [`chars_of`] turns a string into one.

use vstd::prelude::*;

verus! {

/// Whether `c` is white space: the code points that carry the Unicode
/// property `White_Space`.
pub open spec fn is_whitespace(c: char) -> bool {
    ||| '\u{9}' <= c <= '\u{d}'
    ||| c == ' '
    ||| c == '\u{85}'
    ||| c == '\u{a0}'
    ||| c == '\u{1680}'
    ||| '\u{2000}' <= c <= '\u{200a}'
    ||| c == '\u{2028}'
    ||| c == '\u{2029}'
    ||| c == '\u{202f}'
    ||| c == '\u{205f}'
    ||| c == '\u{3000}'
}

/// `s` without its leading white space.
pub open spec fn trim_start(s: Seq<char>) -> Seq<char>
    decreases s.len(),
{
    if s.len() > 0 && is_whitespace(s[0]) {
        trim_start(s.drop_first())
    } else {
        s
    }
}

/// `s` without its trailing white space.
pub open spec fn trim_end(s: Seq<char>) -> Seq<char>
    decreases s.len(),
{
    if s.len() > 0 && is_whitespace(s.last()) {
        trim_end(s.drop_last())
    } else {
        s
    }
}

/// `s` without leading and trailing white space.
pub open spec fn trim(s: Seq<char>) -> Seq<char> {
    trim_end(trim_start(s))
}

/// `c` with the letters `A` to `Z` turned into `a` to `z`; every other
/// character, the letters outside ASCII included, is left as it is.
pub open spec fn fold_case(c: char) -> char {
    if 'A' <= c <= 'Z' {
        ((c as u8) + 32) as char
    } else {
        c
    }
}

/// `s` with [`fold_case`] applied to each character.
pub open spec fn fold(s: Seq<char>) -> Seq<char> {
    s.map_values(|c: char| fold_case(c))
}

/// Whether `pat` stands in `s` at index `i`.
pub open spec fn occurs_at(s: Seq<char>, pat: Seq<char>, i: int) -> bool {
    &&& 0 <= i
    &&& i + pat.len() <= s.len()
    &&& s.subrange(i, i + pat.len()) == pat
}

/// Whether `pat` stands somewhere in `s`. The empty sequence stands in
/// every sequence.
pub open spec fn has_substring(s: Seq<char>, pat: Seq<char>) -> bool {
    exists|i: int| occurs_at(s, pat, i)
}

/// Whether `pat` stands somewhere in `s` when the case of the letters `A`
/// to `Z` is disregarded on both sides.
pub open spec fn has_substring_ignoring_case(s: Seq<char>, pat: Seq<char>) -> bool {
    has_substring(fold(s), fold(pat))
}

/// The view of a text that may be absent.
pub open spec fn text_of(text: Option<String>) -> Option<Seq<char>> {
    match text {
        Some(t) => Some(t@),
        None => None,
    }
}

/// The length of the first line of `s`: the number of characters before
/// the first line feed, or all of them where there is none.
pub open spec fn first_line_len(s: Seq<char>) -> nat
    decreases s.len(),
{
    if s.len() == 0 || s[0] == '\n' {
        0
    } else {
        1 + first_line_len(s.drop_first())
    }
}

/// Leading white space is exactly what `trim_start` removes: where the
/// first `a` characters of `s` are white space and the next one, if there
/// is one, is not, `trim_start(s)` is `s` from index `a` on.
pub proof fn lemma_trim_start_skips(s: Seq<char>, a: int)
    requires
        0 <= a <= s.len(),
        forall|k: int| 0 <= k < a ==> is_whitespace(s[k]),
        a < s.len() ==> !is_whitespace(s[a]),
    ensures
        trim_start(s) == s.skip(a),
    decreases a,
{
    if a == 0 {
        assert(s.skip(0) =~= s);
    } else {
        let rest = s.drop_first();
        assert forall|k: int| 0 <= k < a - 1 implies is_whitespace(rest[k]) by {
            assert(rest[k] == s[k + 1]);
        }
        lemma_trim_start_skips(rest, a - 1);
        assert(rest.skip(a - 1) =~= s.skip(a));
    }
}

/// Trailing white space is exactly what `trim_end` removes: where the
/// characters of `s` from index `b` on are white space and the one before
/// them, if there is one, is not, `trim_end(s)` is the first `b`
/// characters of `s`.
pub proof fn lemma_trim_end_takes(s: Seq<char>, b: int)
    requires
        0 <= b <= s.len(),
        forall|k: int| b <= k < s.len() ==> is_whitespace(s[k]),
        0 < b ==> !is_whitespace(s[b - 1]),
    ensures
        trim_end(s) == s.take(b),
    decreases s.len() - b,
{
    if b == s.len() {
        assert(s.take(b) =~= s);
    } else {
        let rest = s.drop_last();
        lemma_trim_end_takes(rest, b);
        assert(rest.take(b) =~= s.take(b));
    }
}

/// A text that is trimmed stays as it is when trimmed again.
pub proof fn lemma_trim_idempotent(s: Seq<char>)
    ensures
        trim(trim(s)) == trim(s),
{
    lemma_trim_bounds(s);
    let t = trim(s);
    lemma_trim_start_skips(t, 0);
    assert(t.skip(0) =~= t);
    lemma_trim_end_takes(t, t.len() as int);
    assert(t.take(t.len() as int) =~= t);
}

/// What `trim` leaves: a stretch of `s` that neither begins nor ends with
/// white space, with nothing but white space before and after it in `s`.
pub proof fn lemma_trim_bounds(s: Seq<char>)
    ensures
        exists|a: int, b: int| #[trigger]
            trim_cut(s, a, b),
        trim(s).len() > 0 ==> !is_whitespace(trim(s)[0]) && !is_whitespace(trim(s).last()),
{
    let a = leading_whitespace(s) as int;
    lemma_leading_whitespace(s);
    lemma_trim_start_skips(s, a);
    let t = s.skip(a);
    let n = trailing_whitespace(t) as int;
    lemma_trailing_whitespace(t);
    let b = s.len() - n;
    lemma_trim_end_takes(t, t.len() - n);
    assert(t.take(t.len() - n) =~= s.subrange(a, b));
    assert forall|k: int| b <= k < s.len() implies is_whitespace(s[k]) by {
        assert(s[k] == t[k - a]);
    }
    assert(trim_cut(s, a, b));
}

/// Whether `trim(s)` is `s` from index `a` up to index `b`, with white
/// space alone outside that stretch.
pub open spec fn trim_cut(s: Seq<char>, a: int, b: int) -> bool {
    &&& 0 <= a <= b <= s.len()
    &&& trim(s) == s.subrange(a, b)
    &&& forall|k: int| 0 <= k < a ==> is_whitespace(s[k])
    &&& forall|k: int| b <= k < s.len() ==> is_whitespace(s[k])
}

/// The number of white-space characters at the start of `s`.
pub open spec fn leading_whitespace(s: Seq<char>) -> nat
    decreases s.len(),
{
    if s.len() > 0 && is_whitespace(s[0]) {
        1 + leading_whitespace(s.drop_first())
    } else {
        0
    }
}

/// The number of white-space characters at the end of `s`.
pub open spec fn trailing_whitespace(s: Seq<char>) -> nat
    decreases s.len(),
{
    if s.len() > 0 && is_whitespace(s.last()) {
        1 + trailing_whitespace(s.drop_last())
    } else {
        0
    }
}

proof fn lemma_leading_whitespace(s: Seq<char>)
    ensures
        leading_whitespace(s) <= s.len(),
        forall|k: int| 0 <= k < leading_whitespace(s) ==> is_whitespace(s[k]),
        leading_whitespace(s) < s.len() ==> !is_whitespace(s[leading_whitespace(s) as int]),
    decreases s.len(),
{
    if s.len() > 0 && is_whitespace(s[0]) {
        let rest = s.drop_first();
        lemma_leading_whitespace(rest);
        assert forall|k: int| 0 <= k < leading_whitespace(s) implies is_whitespace(s[k]) by {
            if k > 0 {
                assert(s[k] == rest[k - 1]);
            }
        }
        if leading_whitespace(s) < s.len() {
            assert(s[leading_whitespace(s) as int] == rest[leading_whitespace(rest) as int]);
        }
    }
}

proof fn lemma_trailing_whitespace(s: Seq<char>)
    ensures
        trailing_whitespace(s) <= s.len(),
        forall|k: int| s.len() - trailing_whitespace(s) <= k < s.len() ==> is_whitespace(s[k]),
        trailing_whitespace(s) < s.len() ==> !is_whitespace(
            s[s.len() - trailing_whitespace(s) - 1],
        ),
    decreases s.len(),
{
    if s.len() > 0 && is_whitespace(s.last()) {
        let rest = s.drop_last();
        lemma_trailing_whitespace(rest);
        assert forall|k: int|
            s.len() - trailing_whitespace(s) <= k < s.len() implies is_whitespace(s[k]) by {
            if k < s.len() - 1 {
                assert(s[k] == rest[k]);
            }
        }
        if trailing_whitespace(s) < s.len() {
            assert(s[s.len() - trailing_whitespace(s) - 1] == rest[rest.len()
                - trailing_whitespace(rest) - 1]);
        }
    }
}

/// Whether the characters of `s` from index `start` up to index `end` are
/// a line of `s`: they hold no line feed, and a line feed or an end of `s`
/// stands on either side of them.
pub open spec fn is_line(s: Seq<char>, start: int, end: int) -> bool {
    &&& 0 <= start <= end <= s.len()
    &&& start == 0 || s[start - 1] == '\n'
    &&& end == s.len() || s[end] == '\n'
    &&& forall|k: int| start <= k < end ==> s[k] != '\n'
}

/// The first line holds no line feed and ends at one or at the end of
/// `s`.
pub proof fn lemma_first_line_is_line(s: Seq<char>)
    ensures
        is_line(s, 0, first_line_len(s) as int),
    decreases s.len(),
{
    if s.len() > 0 && s[0] != '\n' {
        let rest = s.drop_first();
        lemma_first_line_is_line(rest);
        let n = first_line_len(s) as int;
        assert forall|k: int| 0 <= k < n implies s[k] != '\n' by {
            if k > 0 {
                assert(s[k] == rest[k - 1]);
            }
        }
        if n < s.len() {
            assert(s[n] == rest[n - 1]);
        }
    }
}

/// The first line ends at the first line feed: where no character of `s`
/// before index `n` is a line feed and the one at `n`, if there is one,
/// is, the first line of `s` has `n` characters.
pub proof fn lemma_first_line_len(s: Seq<char>, n: int)
    requires
        0 <= n <= s.len(),
        forall|k: int| 0 <= k < n ==> s[k] != '\n',
        n < s.len() ==> s[n] == '\n',
    ensures
        first_line_len(s) == n,
    decreases n,
{
    if n > 0 {
        let rest = s.drop_first();
        assert forall|k: int| 0 <= k < n - 1 implies rest[k] != '\n' by {
            assert(rest[k] == s[k + 1]);
        }
        lemma_first_line_len(rest, n - 1);
    }
}

/// The characters of `s`, in order.
pub fn chars_of(s: &str) -> (v: Vec<char>)
    ensures
        v@ == s@,
{
    let mut v: Vec<char> = Vec::new();
    for c in it: s.chars()
        invariant
            it.seq() == s@,
            v@ == s@.take(it.index() as int),
    {
        v.push(c);
        assert(s@.take(it.index() + 1) == s@.take(it.index() as int).push(c));
    }
    assert(s@.take(s@.len() as int) == s@);
    v
}

/// Tells white space from other characters.
pub fn is_whitespace_char(c: char) -> (r: bool)
    ensures
        r == is_whitespace(c),
{
    ('\u{9}' <= c && c <= '\u{d}') || c == ' ' || c == '\u{85}' || c == '\u{a0}' || c == '\u{1680}'
        || ('\u{2000}' <= c && c <= '\u{200a}') || c == '\u{2028}' || c == '\u{2029}' || c
        == '\u{202f}' || c == '\u{205f}' || c == '\u{3000}'
}

/// Turns an upper-case ASCII letter into its lower-case form.
pub fn fold_case_char(c: char) -> (r: char)
    ensures
        r == fold_case(c),
{
    if 'A' <= c && c <= 'Z' {
        let b: u8 = c as u8;
        (b + 32) as char
    } else {
        c
    }
}

/// Where the trimmed form of `text` begins and ends in it.
pub fn trim_bounds(text: &[char]) -> (cut: (usize, usize))
    ensures
        cut.0 <= cut.1 <= text.len(),
        trim(text@) == text@.subrange(cut.0 as int, cut.1 as int),
        trim_cut(text@, cut.0 as int, cut.1 as int),
{
    let n: usize = text.len();
    let mut a: usize = 0;
    while a < n && is_whitespace_char(text[a])
        invariant
            n == text.len(),
            a <= n,
            forall|k: int| 0 <= k < a ==> is_whitespace(text@[k]),
        decreases n - a,
    {
        a += 1;
    }
    let mut b: usize = n;
    while b > a && is_whitespace_char(text[b - 1])
        invariant
            n == text.len(),
            a <= b <= n,
            forall|k: int| b <= k < n ==> is_whitespace(text@[k]),
        decreases b,
    {
        b -= 1;
    }
    proof {
        let s = text@;
        lemma_trim_start_skips(s, a as int);
        let t = s.skip(a as int);
        assert forall|k: int| b - a <= k < t.len() implies is_whitespace(t[k]) by {
            assert(t[k] == s[k + a]);
        }
        lemma_trim_end_takes(t, b - a);
        assert(t.take(b - a) =~= s.subrange(a as int, b as int));
    }
    (a, b)
}

/// `s` without leading and trailing white space, as a new string.
pub fn trimmed(s: &str) -> (t: String)
    ensures
        t@ == trim(s@),
{
    let chars = chars_of(s);
    let (a, b) = trim_bounds(chars.as_slice());
    s.substring_char(a, b).to_owned()
}

/// Each character of `text` with its case folded.
pub fn fold_chars(text: &[char]) -> (folded: Vec<char>)
    ensures
        folded@ == fold(text@),
{
    let mut folded: Vec<char> = Vec::new();
    let mut i: usize = 0;
    while i < text.len()
        invariant
            i <= text.len(),
            folded@.len() == i,
            forall|k: int| 0 <= k < i ==> folded@[k] == fold_case(text@[k]),
        decreases text.len() - i,
    {
        folded.push(fold_case_char(text[i]));
        i += 1;
    }
    assert(folded@ =~= fold(text@));
    folded
}

/// Whether `pat` stands in `text` at index `i`.
pub fn matches_at(text: &[char], pat: &[char], i: usize) -> (found: bool)
    requires
        i + pat.len() <= text.len(),
    ensures
        found == occurs_at(text@, pat@, i as int),
{
    let m: usize = pat.len();
    let mut k: usize = 0;
    while k < m
        invariant
            m == pat.len(),
            i + m <= text.len(),
            k <= m,
            forall|j: int| 0 <= j < k ==> text@[i + j] == pat@[j],
        decreases m - k,
    {
        if text[i + k] != pat[k] {
            assert(text@.subrange(i as int, i + m)[k as int] != pat@[k as int]);
            return false;
        }
        k += 1;
    }
    assert(text@.subrange(i as int, i + m) =~= pat@);
    true
}

/// Whether `pat` stands somewhere in `text`.
pub fn contains(text: &[char], pat: &[char]) -> (found: bool)
    ensures
        found == has_substring(text@, pat@),
{
    let n: usize = text.len();
    let m: usize = pat.len();
    if m > n {
        return false;
    }
    let last: usize = n - m;
    let mut i: usize = 0;
    loop
        invariant
            n == text.len(),
            m == pat.len(),
            m <= n,
            last == n - m,
            i <= last,
            forall|j: int| 0 <= j < i ==> !occurs_at(text@, pat@, j),
        decreases last - i,
    {
        if matches_at(text, pat, i) {
            return true;
        }
        if i == last {
            return false;
        }
        i += 1;
    }
}

/// Whether `pat` stands somewhere in `text`, the case of ASCII letters
/// disregarded.
pub fn contains_ignoring_case(text: &[char], pat: &[char]) -> (found: bool)
    ensures
        found == has_substring_ignoring_case(text@, pat@),
{
    let folded_text = fold_chars(text);
    let folded_pat = fold_chars(pat);
    contains(folded_text.as_slice(), folded_pat.as_slice())
}

/// The index at which the line that begins at `start` ends: that of the
/// next line feed, or the length of `text` where none follows.
pub fn line_end(text: &[char], start: usize) -> (end: usize)
    requires
        start <= text.len(),
    ensures
        start <= end <= text.len(),
        end - start == first_line_len(text@.skip(start as int)),
{
    let n: usize = text.len();
    let mut end: usize = start;
    while end < n && text[end] != '\n'
        invariant
            n == text.len(),
            start <= end <= n,
            forall|k: int| start <= k < end ==> text@[k] != '\n',
        decreases n - end,
    {
        end += 1;
    }
    proof {
        lemma_first_line_len(text@.skip(start as int), end - start);
    }
    end
}

} // verus!
