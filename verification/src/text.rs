//! Small verified helpers on strings, stated over their character views.

use vstd::prelude::*;
use vstd::string::*;
use vstd::utf8::*;

verus! {

/// Whether two string slices hold the same characters.
pub fn str_eq(a: &str, b: &str) -> (same: bool)
    ensures
        same == (a@ == b@),
{
    let x = a.as_bytes();
    let y = b.as_bytes();
    proof {
        encode_utf8_decode_utf8(a@);
        encode_utf8_decode_utf8(b@);
    }
    if x.len() != y.len() {
        return false;
    }
    let n: usize = x.len();
    let mut i: usize = 0;
    while i < n
        invariant
            i <= n,
            n == x@.len(),
            n == y@.len(),
            x@ == a.spec_bytes(),
            y@ == b.spec_bytes(),
            forall|j: int| 0 <= j < i ==> x@[j] == y@[j],
        decreases n - i,
    {
        if x[i] != y[i] {
            return false;
        }
        i += 1;
    }
    assert(x@ =~= y@);
    true
}

/// The characters of a string, in order.
pub fn chars_of(s: &str) -> (v: Vec<char>)
    ensures
        v@ == s@,
{
    let mut v: Vec<char> = Vec::new();
    for c in it: s.chars()
        invariant
            it.seq() == s@,
            v@ == it.seq().take(it.index() as int),
    {
        v.push(c);
    }
    v
}

/// The characters that count as white space: those with the Unicode
/// property `White_Space`.
pub open spec fn is_whitespace(c: char) -> bool {
    let u = c as u32;
    ||| 0x09 <= u <= 0x0d
    ||| u == 0x20
    ||| u == 0x85
    ||| u == 0xa0
    ||| u == 0x1680
    ||| 0x2000 <= u <= 0x200a
    ||| u == 0x2028
    ||| u == 0x2029
    ||| u == 0x202f
    ||| u == 0x205f
    ||| u == 0x3000
}

/// Executable form of [`is_whitespace`].
pub fn char_is_whitespace(c: char) -> (b: bool)
    ensures
        b == is_whitespace(c),
{
    let u: u32 = c as u32;
    (0x09 <= u && u <= 0x0d) || u == 0x20 || u == 0x85 || u == 0xa0 || u == 0x1680 || (0x2000 <= u
        && u <= 0x200a) || u == 0x2028 || u == 0x2029 || u == 0x202f || u == 0x205f || u == 0x3000
}

/// A text is blank when nothing is left of it once white space is trimmed
/// from both ends: every character of it is white space.
pub open spec fn is_blank(s: Seq<char>) -> bool {
    forall|i: int| 0 <= i < s.len() ==> is_whitespace(#[trigger] s[i])
}

/// Executable form of [`is_blank`].
pub fn str_is_blank(s: &str) -> (b: bool)
    ensures
        b == is_blank(s@),
{
    for c in it: s.chars()
        invariant
            it.seq() == s@,
            forall|i: int| 0 <= i < it.index() ==> is_whitespace(#[trigger] s@[i]),
    {
        if !char_is_whitespace(c) {
            assert(!is_whitespace(s@[it.index() as int]));
            return false;
        }
    }
    true
}

/// `pat` stands in `s` at index `i`.
pub open spec fn occurs_at(s: Seq<char>, pat: Seq<char>, i: int) -> bool {
    &&& 0 <= i
    &&& i + pat.len() <= s.len()
    &&& s.subrange(i, i + pat.len()) == pat
}

/// `k` is the index of the first occurrence of `pat` in `s`.
pub open spec fn is_first_occurrence(s: Seq<char>, pat: Seq<char>, k: int) -> bool {
    &&& occurs_at(s, pat, k)
    &&& forall|j: int| 0 <= j < k ==> !occurs_at(s, pat, j)
}

/// Where `s` is cut when everything from the first occurrence of `pat` on
/// is dropped: the index of that occurrence, or the length of `s` where
/// `pat` does not occur.
pub open spec fn cut_point(s: Seq<char>, pat: Seq<char>) -> int {
    if exists|k: int| is_first_occurrence(s, pat, k) {
        choose|k: int| is_first_occurrence(s, pat, k)
    } else {
        s.len() as int
    }
}

/// The part of `s` before the first occurrence of `pat`; all of `s` where
/// `pat` does not occur.
pub open spec fn before_first(s: Seq<char>, pat: Seq<char>) -> Seq<char> {
    s.subrange(0, cut_point(s, pat))
}

/// The cut point is a position in `s`, and it is the only index that is
/// either the first occurrence or, without one, the end.
pub proof fn lemma_cut_point(s: Seq<char>, pat: Seq<char>, k: int)
    requires
        is_first_occurrence(s, pat, k) || (k == s.len() && forall|j: int|
            0 <= j <= s.len() ==> !occurs_at(s, pat, j)),
    ensures
        cut_point(s, pat) == k,
        0 <= k <= s.len(),
{
    if is_first_occurrence(s, pat, k) {
        let c = choose|c: int| is_first_occurrence(s, pat, c);
        assert(occurs_at(s, pat, c));
        if c < k {
            assert(!occurs_at(s, pat, c));
        }
        if k < c {
            assert(!occurs_at(s, pat, k));
        }
    } else {
        if exists|c: int| is_first_occurrence(s, pat, c) {
            let c = choose|c: int| is_first_occurrence(s, pat, c);
            assert(occurs_at(s, pat, c));
            assert(!occurs_at(s, pat, c));
        }
    }
}

/// Whether `pat` stands in `s` at index `i`, for an index at which it fits.
fn matches_at(s: &Vec<char>, pat: &Vec<char>, i: usize) -> (b: bool)
    requires
        i + pat@.len() <= s@.len(),
    ensures
        b == occurs_at(s@, pat@, i as int),
{
    let n: usize = s.len();
    let m: usize = pat.len();
    let mut j: usize = 0;
    while j < m
        invariant
            j <= m,
            m == pat@.len(),
            n == s@.len(),
            i + m <= n,
            forall|t: int| 0 <= t < j ==> s@[i + t] == pat@[t],
        decreases m - j,
    {
        if s[i + j] != pat[j] {
            assert(s@.subrange(i as int, i + m)[j as int] == s@[i + j]);
            return false;
        }
        j += 1;
    }
    assert(s@.subrange(i as int, i + m) =~= pat@);
    true
}

/// The index at which `s` is cut before the first occurrence of `pat`.
pub fn find_cut_point(s: &Vec<char>, pat: &Vec<char>) -> (k: usize)
    ensures
        k == cut_point(s@, pat@),
        k <= s@.len(),
{
    let n: usize = s.len();
    let m: usize = pat.len();
    if m > n {
        proof {
            lemma_cut_point(s@, pat@, n as int);
        }
        return n;
    }
    let last: usize = n - m;
    let mut i: usize = 0;
    loop
        invariant
            i <= last,
            last == n - m,
            n == s@.len(),
            m == pat@.len(),
            forall|j: int| 0 <= j < i ==> !occurs_at(s@, pat@, j),
        decreases last - i,
    {
        if matches_at(s, pat, i) {
            proof {
                lemma_cut_point(s@, pat@, i as int);
            }
            return i;
        }
        if i == last {
            proof {
                lemma_cut_point(s@, pat@, n as int);
            }
            return n;
        }
        i += 1;
    }
}

/// The part of `s` before the first occurrence of `pat`, as a new string.
pub fn str_before_first(s: &str, pat: &str) -> (head: String)
    ensures
        head@ == before_first(s@, pat@),
{
    let chars = chars_of(s);
    let marker = chars_of(pat);
    let k = find_cut_point(&chars, &marker);
    s.substring_char(0, k).to_owned()
}

} // verus!
