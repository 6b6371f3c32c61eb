//! Character-level text operations and their mathematical definitions.
//!
//! Texts are modelled as `Seq<char>`. Every executable function here is
//! specified against a definition on sequences.

use vstd::prelude::*;
use vstd::string::*;

verus! {

/// Whether `pat` occurs in `s` starting at index `i`.
pub open spec fn occurs_at(s: Seq<char>, pat: Seq<char>, i: int) -> bool {
    0 <= i && i + pat.len() <= s.len() && s.subrange(i, i + pat.len()) == pat
}

/// Whether `pat` occurs somewhere in `s`.
pub open spec fn contains(s: Seq<char>, pat: Seq<char>) -> bool {
    exists|i: int| occurs_at(s, pat, i)
}

/// Whether `i` is the index of the leftmost occurrence of `pat` in `s`.
pub open spec fn leftmost(s: Seq<char>, pat: Seq<char>, i: int) -> bool {
    occurs_at(s, pat, i) && forall|j: int| 0 <= j < i ==> !occurs_at(s, pat, j)
}

/// The index of the leftmost occurrence of `pat` in `s`; `s.len()` when
/// `pat` does not occur.
pub open spec fn first_occurrence(s: Seq<char>, pat: Seq<char>) -> int {
    if contains(s, pat) {
        choose|i: int| leftmost(s, pat, i)
    } else {
        s.len() as int
    }
}

/// The text in front of the leftmost occurrence of `pat`; all of `s` when
/// `pat` does not occur.
pub open spec fn before_first(s: Seq<char>, pat: Seq<char>) -> Seq<char> {
    s.take(first_occurrence(s, pat))
}

/// The text behind the leftmost occurrence of `pat`; empty when `pat` does
/// not occur.
pub open spec fn after_first(s: Seq<char>, pat: Seq<char>) -> Seq<char> {
    if contains(s, pat) {
        s.skip(first_occurrence(s, pat) + pat.len())
    } else {
        Seq::empty()
    }
}

/// The text between the first and the second occurrence of `pat`, where
/// occurrences are counted from left to right without overlap. Runs to the
/// end of `s` when there is no second occurrence.
pub open spec fn second_piece(s: Seq<char>, pat: Seq<char>) -> Seq<char> {
    before_first(after_first(s, pat), pat)
}

/// Whether `s` ends with `suffix`.
pub open spec fn ends_with(s: Seq<char>, suffix: Seq<char>) -> bool {
    suffix.len() <= s.len() && s.subrange(s.len() - suffix.len(), s.len() as int) == suffix
}

/// Whether `c` has the Unicode property White_Space.
pub open spec fn white_space(c: char) -> bool {
    let u = c as u32;
    ||| 0x09 <= u <= 0x0D
    ||| u == 0x20
    ||| u == 0x85
    ||| u == 0xA0
    ||| u == 0x1680
    ||| 0x2000 <= u <= 0x200A
    ||| u == 0x2028
    ||| u == 0x2029
    ||| u == 0x202F
    ||| u == 0x205F
    ||| u == 0x3000
}

/// `s` without its leading white space.
pub open spec fn trim_start(s: Seq<char>) -> Seq<char>
    decreases s.len(),
{
    if s.len() > 0 && white_space(s[0]) {
        trim_start(s.drop_first())
    } else {
        s
    }
}

/// `s` without its trailing white space.
pub open spec fn trim_end(s: Seq<char>) -> Seq<char>
    decreases s.len(),
{
    if s.len() > 0 && white_space(s.last()) {
        trim_end(s.drop_last())
    } else {
        s
    }
}

/// `s` without leading and trailing white space.
pub open spec fn trim(s: Seq<char>) -> Seq<char> {
    trim_end(trim_start(s))
}

/// Whether `s` neither starts nor ends with white space.
pub open spec fn is_trimmed(s: Seq<char>) -> bool {
    s.len() > 0 ==> !white_space(s[0]) && !white_space(s.last())
}

/// `s` without the run of `c` at its end.
pub open spec fn strip_trailing(s: Seq<char>, c: char) -> Seq<char>
    decreases s.len(),
{
    if s.len() > 0 && s.last() == c {
        strip_trailing(s.drop_last(), c)
    } else {
        s
    }
}

/// The decimal digit for `d`, which is below ten.
pub open spec fn digit(d: nat) -> char {
    if d == 0 {
        '0'
    } else if d == 1 {
        '1'
    } else if d == 2 {
        '2'
    } else if d == 3 {
        '3'
    } else if d == 4 {
        '4'
    } else if d == 5 {
        '5'
    } else if d == 6 {
        '6'
    } else if d == 7 {
        '7'
    } else if d == 8 {
        '8'
    } else {
        '9'
    }
}

/// `n` written in decimal without leading zeros.
pub open spec fn decimal(n: nat) -> Seq<char>
    decreases n,
{
    if n < 10 {
        seq![digit(n)]
    } else {
        decimal(n / 10).push(digit(n % 10))
    }
}

/// A pattern has at most one leftmost occurrence.
pub proof fn lemma_leftmost_unique(s: Seq<char>, pat: Seq<char>, i: int)
    requires
        leftmost(s, pat, i),
    ensures
        contains(s, pat),
        first_occurrence(s, pat) == i,
{
    let k = choose|k: int| leftmost(s, pat, k);
    assert(occurs_at(s, pat, i));
    if k < i {
        assert(!occurs_at(s, pat, k));
    } else if i < k {
        assert(!occurs_at(s, pat, i));
    }
}

/// Where a pattern occurs, it has a leftmost occurrence.
pub proof fn lemma_first_occurrence(s: Seq<char>, pat: Seq<char>)
    requires
        contains(s, pat),
    ensures
        leftmost(s, pat, first_occurrence(s, pat)),
{
    let w = choose|i: int| occurs_at(s, pat, i);
    lemma_leftmost_below(s, pat, w);
}

/// An occurrence at `w` bounds a leftmost occurrence.
proof fn lemma_leftmost_below(s: Seq<char>, pat: Seq<char>, w: int)
    requires
        occurs_at(s, pat, w),
    ensures
        exists|i: int| leftmost(s, pat, i),
    decreases w,
{
    if exists|j: int| 0 <= j < w && occurs_at(s, pat, j) {
        let j = choose|j: int| 0 <= j < w && occurs_at(s, pat, j);
        lemma_leftmost_below(s, pat, j);
    } else {
        assert(leftmost(s, pat, w));
    }
}

/// The text in front of the first occurrence of a pattern does not hold
/// the pattern.
pub proof fn lemma_before_first_lacks(s: Seq<char>, pat: Seq<char>)
    requires
        pat.len() > 0,
    ensures
        !contains(before_first(s, pat), pat),
{
    let head = before_first(s, pat);
    if contains(s, pat) {
        lemma_first_occurrence(s, pat);
        assert forall|j: int| !occurs_at(head, pat, j) by {
            if occurs_at(head, pat, j) {
                assert(head.subrange(j, j + pat.len()) =~= s.subrange(j, j + pat.len()));
                assert(occurs_at(s, pat, j));
            }
        }
    } else {
        assert(head =~= s);
    }
}

/// A pattern that occurs in a part of a text occurs in the text.
pub proof fn lemma_part_contains(s: Seq<char>, a: int, b: int, pat: Seq<char>)
    requires
        0 <= a <= b <= s.len(),
        contains(s.subrange(a, b), pat),
    ensures
        contains(s, pat),
{
    let part = s.subrange(a, b);
    let i = choose|i: int| occurs_at(part, pat, i);
    assert(part.subrange(i, i + pat.len()) =~= s.subrange(a + i, a + i + pat.len()));
    assert(occurs_at(s, pat, a + i));
}

/// Dropping leading white space leaves a tail of the text that does not
/// start with white space.
pub proof fn lemma_trim_start(s: Seq<char>)
    ensures
        exists|k: int| 0 <= k <= s.len() && trim_start(s) == s.skip(k),
        trim_start(s).len() > 0 ==> !white_space(trim_start(s)[0]),
    decreases s.len(),
{
    if s.len() > 0 && white_space(s[0]) {
        lemma_trim_start(s.drop_first());
        let k = choose|k: int|
            0 <= k <= s.drop_first().len() && trim_start(s.drop_first()) == s.drop_first().skip(k);
        assert(s.drop_first().skip(k) =~= s.skip(k + 1));
    } else {
        assert(s.skip(0) =~= s);
    }
}

/// Dropping trailing white space leaves a head of the text that does not
/// end with white space.
pub proof fn lemma_trim_end(s: Seq<char>)
    ensures
        exists|k: int| 0 <= k <= s.len() && trim_end(s) == s.take(k),
        trim_end(s).len() > 0 ==> !white_space(trim_end(s).last()),
    decreases s.len(),
{
    if s.len() > 0 && white_space(s.last()) {
        lemma_trim_end(s.drop_last());
        let k = choose|k: int|
            0 <= k <= s.drop_last().len() && trim_end(s.drop_last()) == s.drop_last().take(k);
        assert(s.drop_last().take(k) =~= s.take(k));
    } else {
        assert(s.take(s.len() as int) =~= s);
    }
}

/// A trimmed text is a part of the text it was trimmed from, and neither
/// starts nor ends with white space.
pub proof fn lemma_trim(s: Seq<char>)
    ensures
        exists|a: int, b: int| 0 <= a <= b <= s.len() && trim(s) == s.subrange(a, b),
        is_trimmed(trim(s)),
{
    lemma_trim_start(s);
    let t = trim_start(s);
    let a = choose|k: int| 0 <= k <= s.len() && t == s.skip(k);
    lemma_trim_end(t);
    let k = choose|k: int| 0 <= k <= t.len() && trim_end(t) == t.take(k);
    assert(t.take(k) =~= s.subrange(a, a + k));
    if trim(s).len() > 0 {
        assert(trim(s)[0] == t[0]);
    }
}

/// Trimming changes a text exactly when the text starts or ends with white
/// space.
pub proof fn lemma_trim_fixed(s: Seq<char>)
    ensures
        trim(s) == s <==> is_trimmed(s),
{
    lemma_trim(s);
}

/// Trimming does not bring a pattern into a text.
pub proof fn lemma_trim_lacks(s: Seq<char>, pat: Seq<char>)
    requires
        !contains(s, pat),
    ensures
        !contains(trim(s), pat),
{
    lemma_trim(s);
    let (a, b) = choose|a: int, b: int| 0 <= a <= b <= s.len() && trim(s) == s.subrange(a, b);
    if contains(trim(s), pat) {
        lemma_part_contains(s, a, b, pat);
    }
}

/// A text that starts with a pattern has what follows the pattern behind
/// the first occurrence.
pub proof fn lemma_starts_with(pat: Seq<char>, rest: Seq<char>)
    ensures
        contains(pat + rest, pat),
        after_first(pat + rest, pat) == rest,
{
    let s = pat + rest;
    assert(s.subrange(0, pat.len() as int) =~= pat);
    assert(leftmost(s, pat, 0));
    lemma_leftmost_unique(s, pat, 0);
    assert(s.skip(pat.len() as int) =~= rest);
}

/// A text with the first occurrence of a pattern at its end has itself, up
/// to there, in front of the pattern.
pub proof fn lemma_ends_with_first(inner: Seq<char>, pat: Seq<char>)
    requires
        leftmost(inner + pat, pat, inner.len() as int),
    ensures
        before_first(inner + pat, pat) == inner,
{
    lemma_leftmost_unique(inner + pat, pat, inner.len() as int);
    assert((inner + pat).take(inner.len() as int) =~= inner);
}

/// The characters of `s`, in order.
pub fn chars_of(s: &str) -> (v: Vec<char>)
    ensures
        v@ == s@,
{
    let mut v: Vec<char> = Vec::new();
    for c in it: s.chars()
        invariant
            v@ == it.seq().take(it.index() as int),
    {
        v.push(c);
    }
    v
}

/// Tells whether `c` is white space.
pub fn is_whitespace(c: char) -> (b: bool)
    ensures
        b == white_space(c),
{
    let u: u32 = c as u32;
    (0x09 <= u && u <= 0x0D) || u == 0x20 || u == 0x85 || u == 0xA0 || u == 0x1680 || (0x2000 <= u
        && u <= 0x200A) || u == 0x2028 || u == 0x2029 || u == 0x202F || u == 0x205F || u == 0x3000
}

/// Tells whether `pat` occurs in `hay` at index `at`.
pub(crate) fn matches_at(hay: &Vec<char>, at: usize, pat: &Vec<char>) -> (b: bool)
    ensures
        b == occurs_at(hay@, pat@, at as int),
{
    if pat.len() > hay.len() || at > hay.len() - pat.len() {
        return false;
    }
    let mut k: usize = 0;
    while k < pat.len()
        invariant
            k <= pat.len(),
            at + pat.len() <= hay.len(),
            forall|j: int| 0 <= j < k ==> hay@[at + j] == pat@[j],
        decreases pat.len() - k,
    {
        if hay[at + k] != pat[k] {
            assert(hay@.subrange(at as int, at + pat.len())[k as int] == hay@[at + k]);
            return false;
        }
        k += 1;
    }
    assert(hay@.subrange(at as int, at + pat.len()) =~= pat@);
    true
}

/// Finds the leftmost occurrence of `pat` inside `hay[lo..hi]`. The index
/// returned counts from the start of `hay`.
pub(crate) fn find_in(hay: &Vec<char>, lo: usize, hi: usize, pat: &Vec<char>) -> (r: Option<usize>)
    requires
        lo <= hi <= hay.len(),
    ensures
        match r {
            Some(i) => lo <= i && i + pat.len() <= hi && leftmost(
                hay@.subrange(lo as int, hi as int),
                pat@,
                i - lo,
            ),
            None => !contains(hay@.subrange(lo as int, hi as int), pat@),
        },
{
    let ghost window = hay@.subrange(lo as int, hi as int);
    if pat.len() > hi - lo {
        assert forall|i: int| !occurs_at(window, pat@, i) by {}
        return None;
    }
    let mut i: usize = lo;
    while hi - i >= pat.len()
        invariant
            lo <= i <= hi <= hay.len(),
            pat.len() <= hi - lo,
            window == hay@.subrange(lo as int, hi as int),
            forall|j: int| 0 <= j < i - lo ==> !occurs_at(window, pat@, j),
        decreases hi - i,
    {
        let here = matches_at(hay, i, pat);
        proof {
            assert(window.subrange(i - lo, i - lo + pat.len()) =~= hay@.subrange(
                i as int,
                i + pat.len(),
            ));
        }
        if here {
            assert(occurs_at(window, pat@, i - lo));
            return Some(i);
        }
        assert(pat.len() > 0) by {
            if pat.len() == 0 {
                assert(hay@.subrange(i as int, i as int) =~= pat@);
            }
        }
        i += 1;
    }
    assert forall|j: int| !occurs_at(window, pat@, j) by {}
    None
}

/// Finds the bounds of `hay[lo..hi]` without its leading and trailing white
/// space.
pub(crate) fn trim_bounds(hay: &Vec<char>, lo: usize, hi: usize) -> (r: (usize, usize))
    requires
        lo <= hi <= hay.len(),
    ensures
        lo <= r.0 <= r.1 <= hi,
        hay@.subrange(r.0 as int, r.1 as int) == trim(hay@.subrange(lo as int, hi as int)),
{
    let mut a: usize = lo;
    while a < hi && is_whitespace(hay[a])
        invariant
            lo <= a <= hi <= hay.len(),
            trim_start(hay@.subrange(lo as int, hi as int)) == trim_start(
                hay@.subrange(a as int, hi as int),
            ),
        decreases hi - a,
    {
        assert(hay@.subrange(a as int, hi as int).drop_first() =~= hay@.subrange(
            a + 1,
            hi as int,
        ));
        a += 1;
    }
    let mut b: usize = hi;
    while b > a && is_whitespace(hay[b - 1])
        invariant
            a <= b <= hi <= hay.len(),
            trim_end(hay@.subrange(a as int, hi as int)) == trim_end(
                hay@.subrange(a as int, b as int),
            ),
        decreases b - a,
    {
        assert(hay@.subrange(a as int, b as int).drop_last() =~= hay@.subrange(a as int, b - 1));
        b -= 1;
    }
    (a, b)
}

/// `s` without leading and trailing white space.
pub fn trimmed(s: &str) -> (r: String)
    ensures
        r@ == trim(s@),
{
    let chars = chars_of(s);
    let (a, b) = trim_bounds(&chars, 0, chars.len());
    assert(chars@.subrange(0, chars.len() as int) =~= chars@);
    s.substring_char(a, b).to_owned()
}

/// `s` without the run of `c` at its end.
pub fn without_trailing(s: &str, c: char) -> (r: String)
    ensures
        r@ == strip_trailing(s@, c),
{
    let chars = chars_of(s);
    let mut b: usize = chars.len();
    assert(chars@.take(b as int) =~= chars@);
    while b > 0 && chars[b - 1] == c
        invariant
            b <= chars.len(),
            strip_trailing(chars@, c) == strip_trailing(chars@.take(b as int), c),
        decreases b,
    {
        assert(chars@.take(b as int).drop_last() =~= chars@.take(b - 1));
        b -= 1;
    }
    assert(chars@.take(b as int) =~= chars@.subrange(0, b as int));
    s.substring_char(0, b).to_owned()
}

/// Tells whether `s` ends with `suffix`.
pub fn has_suffix(s: &str, suffix: &str) -> (b: bool)
    ensures
        b == ends_with(s@, suffix@),
{
    let hay = chars_of(s);
    let pat = chars_of(suffix);
    if pat.len() > hay.len() {
        return false;
    }
    matches_at(&hay, hay.len() - pat.len(), &pat)
}

/// The text of one decimal digit.
fn digit_text(d: u64) -> (t: &'static str)
    requires
        d < 10,
    ensures
        t@ == seq![digit(d as nat)],
{
    proof {
        reveal_strlit("0");
        reveal_strlit("1");
        reveal_strlit("2");
        reveal_strlit("3");
        reveal_strlit("4");
        reveal_strlit("5");
        reveal_strlit("6");
        reveal_strlit("7");
        reveal_strlit("8");
        reveal_strlit("9");
    }
    let t = if d == 0 {
        "0"
    } else if d == 1 {
        "1"
    } else if d == 2 {
        "2"
    } else if d == 3 {
        "3"
    } else if d == 4 {
        "4"
    } else if d == 5 {
        "5"
    } else if d == 6 {
        "6"
    } else if d == 7 {
        "7"
    } else if d == 8 {
        "8"
    } else {
        "9"
    };
    assert(t@ =~= seq![digit(d as nat)]);
    t
}

/// `n` written in decimal without leading zeros.
pub fn decimal_text(n: u64) -> (r: String)
    ensures
        r@ == decimal(n as nat),
    decreases n,
{
    if n < 10 {
        digit_text(n).to_owned()
    } else {
        let head = decimal_text(n / 10);
        let r = head.concat(digit_text(n % 10));
        assert(r@ =~= decimal((n / 10) as nat).push(digit((n % 10) as nat)));
        r
    }
}


/// The text held by an optional string.
pub open spec fn option_text(o: Option<String>) -> Option<Seq<char>> {
    match o {
        Some(s) => Some(s@),
        None => None,
    }
}

/// The texts held by a list of strings.
pub open spec fn texts(v: Seq<String>) -> Seq<Seq<char>> {
    v.map_values(|s: String| s@)
}

/// Tells whether two texts are the same.
pub fn equal(a: &str, b: &str) -> (same: bool)
    ensures
        same == (a@ == b@),
{
    let x = chars_of(a);
    let y = chars_of(b);
    if x.len() != y.len() {
        return false;
    }
    let mut i: usize = 0;
    while i < x.len()
        invariant
            i <= x.len(),
            x.len() == y.len(),
            x@ == a@,
            y@ == b@,
            forall|j: int| 0 <= j < i ==> x@[j] == y@[j],
        decreases x.len() - i,
    {
        if x[i] != y[i] {
            assert(a@[i as int] != b@[i as int]);
            return false;
        }
        i += 1;
    }
    assert(x@ =~= y@);
    true
}

/// A copy of an optional text.
pub fn clone_option(o: &Option<String>) -> (r: Option<String>)
    ensures
        option_text(r) == option_text(*o),
{
    match o {
        Some(s) => Some(s.clone()),
        None => None,
    }
}

} // verus!
