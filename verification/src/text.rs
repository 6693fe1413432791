//! Character-sequence utilities shared by the credential codec and the
//! catalog search: finding a separator, trimming surrounding whitespace,
//! prefix tests and substring containment.

use vstd::prelude::*;

verus! {

/// The whitespace characters that trimming removes from the edges of a field.
pub open spec fn is_ws_char(c: char) -> bool {
    c == ' ' || c == '\t' || c == '\r' || c == '\n'
}

/// Index of the first occurrence of `c` in `s`, or -1 when absent.
pub open spec fn find_idx(s: Seq<char>, c: char) -> int
    decreases s.len(),
{
    if s.len() == 0 {
        -1
    } else if s[0] == c {
        0
    } else {
        let rest = find_idx(s.drop_first(), c);
        if rest < 0 {
            -1
        } else {
            rest + 1
        }
    }
}

/// `s` with leading and trailing whitespace characters removed.
pub open spec fn trim_spec(s: Seq<char>) -> Seq<char>
    decreases s.len(),
{
    if s.len() == 0 {
        s
    } else if is_ws_char(s[0]) {
        trim_spec(s.drop_first())
    } else if is_ws_char(s[s.len() - 1]) {
        trim_spec(s.drop_last())
    } else {
        s
    }
}

/// `p` is a prefix of `s`.
pub open spec fn starts_with_spec(s: Seq<char>, p: Seq<char>) -> bool {
    p.len() <= s.len() && s.subrange(0, p.len() as int) == p
}

/// The code point of `c` with an ASCII capital letter folded to its small
/// form; every other character keeps its own code point.
pub open spec fn fold_ascii(c: char) -> int {
    if 'A' <= c && c <= 'Z' {
        c as int + 32
    } else {
        c as int
    }
}

/// The two characters are equal up to ASCII letter case.
pub open spec fn char_eq_fold(a: char, b: char) -> bool {
    fold_ascii(a) == fold_ascii(b)
}

/// `n` occurs in `h` starting at position `i`, up to ASCII letter case.
pub open spec fn occurs_at(h: Seq<char>, n: Seq<char>, i: int) -> bool {
    &&& 0 <= i
    &&& i + n.len() <= h.len()
    &&& forall|m: int| 0 <= m < n.len() ==> char_eq_fold(h[i + m], n[m])
}

/// `n` occurs somewhere in `h`: substring containment, insensitive to ASCII
/// letter case and to nothing else.
pub open spec fn contains_seq(h: Seq<char>, n: Seq<char>) -> bool {
    exists|i: int| occurs_at(h, n, i)
}

/// `find_idx` returns either -1 with no occurrence, or the first occurrence.
pub proof fn lemma_find_idx(s: Seq<char>, c: char)
    ensures
        find_idx(s, c) == -1 || 0 <= find_idx(s, c) < s.len(),
        find_idx(s, c) == -1 ==> forall|j: int| 0 <= j < s.len() ==> s[j] != c,
        find_idx(s, c) >= 0 ==> s[find_idx(s, c)] == c,
        find_idx(s, c) >= 0 ==> forall|j: int| 0 <= j < find_idx(s, c) ==> s[j] != c,
    decreases s.len(),
{
    if s.len() > 0 && s[0] != c {
        let rest = s.drop_first();
        lemma_find_idx(rest, c);
        assert(forall|j: int| 0 <= j < rest.len() ==> rest[j] == s[j + 1]);
        if find_idx(rest, c) == -1 {
            assert forall|j: int| 0 <= j < s.len() implies s[j] != c by {
                if j > 0 {
                    assert(rest[j - 1] != c);
                }
            }
        } else {
            assert forall|j: int| 0 <= j < find_idx(s, c) implies s[j] != c by {
                if j > 0 {
                    assert(rest[j - 1] != c);
                }
            }
        }
    }
}

/// An index that is an occurrence of `c` preceded by none is what `find_idx` returns.
pub proof fn lemma_find_idx_at(s: Seq<char>, c: char, i: int)
    requires
        0 <= i < s.len(),
        s[i] == c,
        forall|j: int| 0 <= j < i ==> s[j] != c,
    ensures
        find_idx(s, c) == i,
    decreases s.len(),
{
    if i > 0 {
        let rest = s.drop_first();
        assert(forall|j: int| 0 <= j < rest.len() ==> rest[j] == s[j + 1]);
        lemma_find_idx_at(rest, c, i - 1);
    }
}

/// When `c` does not occur in `s`, `find_idx` reports -1.
pub proof fn lemma_find_idx_absent(s: Seq<char>, c: char)
    requires
        forall|j: int| 0 <= j < s.len() ==> s[j] != c,
    ensures
        find_idx(s, c) == -1,
{
    lemma_find_idx(s, c);
    if find_idx(s, c) >= 0 {
        assert(s[find_idx(s, c)] == c);
    }
}

/// A sequence of whitespace characters trims to the empty sequence.
pub proof fn lemma_trim_all_ws(s: Seq<char>)
    requires
        forall|j: int| 0 <= j < s.len() ==> is_ws_char(s[j]),
    ensures
        trim_spec(s) =~= Seq::<char>::empty(),
    decreases s.len(),
{
    if s.len() > 0 {
        let rest = s.drop_first();
        assert(forall|j: int| 0 <= j < rest.len() ==> rest[j] == s[j + 1]);
        lemma_trim_all_ws(rest);
    }
}

/// Trimming keeps exactly the span from the first to the last
/// non-whitespace character.
pub proof fn lemma_trim_range(s: Seq<char>, lo: int, hi: int)
    requires
        0 <= lo < hi <= s.len(),
        forall|j: int| 0 <= j < lo ==> is_ws_char(s[j]),
        forall|j: int| hi <= j < s.len() ==> is_ws_char(s[j]),
        !is_ws_char(s[lo]),
        !is_ws_char(s[hi - 1]),
    ensures
        trim_spec(s) == s.subrange(lo, hi),
    decreases s.len(),
{
    if lo > 0 {
        let rest = s.drop_first();
        assert(forall|j: int| 0 <= j < rest.len() ==> rest[j] == s[j + 1]);
        lemma_trim_range(rest, lo - 1, hi - 1);
        assert(rest.subrange(lo - 1, hi - 1) =~= s.subrange(lo, hi));
    } else if hi < s.len() {
        let rest = s.drop_last();
        assert(forall|j: int| 0 <= j < rest.len() ==> rest[j] == s[j]);
        lemma_trim_range(rest, lo, hi);
        assert(rest.subrange(lo, hi) =~= s.subrange(lo, hi));
    } else {
        assert(trim_spec(s) == s);
        assert(s.subrange(0, s.len() as int) =~= s);
    }
}

/// The two character sequences are equal.
pub fn str_equal(a: &str, b: &str) -> (r: bool)
    ensures
        r == (a@ == b@),
{
    let al = a.unicode_len();
    let bl = b.unicode_len();
    if al != bl {
        return false;
    }
    let mut j: usize = 0;
    while j < al
        invariant
            al == a@.len(),
            al == b@.len(),
            0 <= j <= al,
            forall|m: int| 0 <= m < j ==> a@[m] == b@[m],
        decreases al - j,
    {
        if a.get_char(j) != b.get_char(j) {
            return false;
        }
        j = j + 1;
    }
    proof {
        assert(a@ =~= b@);
    }
    true
}

/// `p` is a prefix of `s`.
pub fn starts_with(s: &str, p: &str) -> (r: bool)
    ensures
        r == starts_with_spec(s@, p@),
{
    let sl = s.unicode_len();
    let pl = p.unicode_len();
    if pl > sl {
        return false;
    }
    let mut j: usize = 0;
    while j < pl
        invariant
            sl == s@.len(),
            pl == p@.len(),
            pl <= sl,
            0 <= j <= pl,
            forall|m: int| 0 <= m < j ==> s@[m] == p@[m],
        decreases pl - j,
    {
        if s.get_char(j) != p.get_char(j) {
            proof {
                assert(s@.subrange(0, p@.len() as int)[j as int] != p@[j as int]);
            }
            return false;
        }
        j = j + 1;
    }
    proof {
        assert(s@.subrange(0, p@.len() as int) =~= p@);
    }
    true
}

/// Index of the first occurrence of `c` in `s`, if any.
pub fn find_char(s: &str, c: char) -> (r: Option<usize>)
    ensures
        match r {
            Some(i) => find_idx(s@, c) == i as int,
            None => find_idx(s@, c) == -1,
        },
{
    let sl = s.unicode_len();
    let mut i: usize = 0;
    while i < sl
        invariant
            sl == s@.len(),
            0 <= i <= sl,
            forall|j: int| 0 <= j < i ==> s@[j] != c,
        decreases sl - i,
    {
        if s.get_char(i) == c {
            proof {
                lemma_find_idx_at(s@, c, i as int);
            }
            return Some(i);
        }
        i = i + 1;
    }
    proof {
        lemma_find_idx_absent(s@, c);
    }
    None
}

/// `s` with leading and trailing whitespace characters removed.
pub fn trim(s: &str) -> (r: &str)
    ensures
        r@ == trim_spec(s@),
{
    let sl = s.unicode_len();
    let mut lo: usize = 0;
    while lo < sl && is_ws(s.get_char(lo))
        invariant
            sl == s@.len(),
            0 <= lo <= sl,
            forall|j: int| 0 <= j < lo ==> is_ws_char(s@[j]),
        decreases sl - lo,
    {
        lo = lo + 1;
    }
    let mut hi: usize = sl;
    while hi > lo && is_ws(s.get_char(hi - 1))
        invariant
            sl == s@.len(),
            0 <= lo <= hi <= sl,
            forall|j: int| 0 <= j < lo ==> is_ws_char(s@[j]),
            forall|j: int| hi <= j < sl ==> is_ws_char(s@[j]),
        decreases hi,
    {
        hi = hi - 1;
    }
    proof {
        if lo == hi {
            assert(forall|j: int| 0 <= j < s@.len() ==> is_ws_char(s@[j]));
            lemma_trim_all_ws(s@);
            assert(s@.subrange(lo as int, hi as int) =~= Seq::<char>::empty());
        } else {
            lemma_trim_range(s@, lo as int, hi as int);
        }
    }
    s.substring_char(lo, hi)
}

/// `c` is a whitespace character in the sense of [`is_ws_char`].
pub fn is_ws(c: char) -> (r: bool)
    ensures
        r == is_ws_char(c),
{
    c == ' ' || c == '\t' || c == '\r' || c == '\n'
}

/// The two characters are equal up to ASCII letter case.
pub fn chars_eq_fold(a: char, b: char) -> (r: bool)
    ensures
        r == char_eq_fold(a, b),
{
    let ai: u32 = a as u32;
    let bi: u32 = b as u32;
    let fa: u32 = if 'A' <= a && a <= 'Z' {
        ai + 32
    } else {
        ai
    };
    let fb: u32 = if 'A' <= b && b <= 'Z' {
        bi + 32
    } else {
        bi
    };
    fa == fb
}

/// `n` occurs in `h` starting at position `i`, up to ASCII letter case.
fn matches_at(h: &str, n: &str, i: usize) -> (r: bool)
    requires
        i + n@.len() <= h@.len(),
    ensures
        r == occurs_at(h@, n@, i as int),
{
    let hl = h.unicode_len();
    let nl = n.unicode_len();
    let mut j: usize = 0;
    while j < nl
        invariant
            hl == h@.len(),
            nl == n@.len(),
            i + nl <= hl,
            0 <= j <= nl,
            forall|m: int| 0 <= m < j ==> char_eq_fold(h@[i + m], n@[m]),
        decreases nl - j,
    {
        if !chars_eq_fold(h.get_char(i + j), n.get_char(j)) {
            return false;
        }
        j = j + 1;
    }
    true
}

/// `n` occurs somewhere in `h`, up to ASCII letter case.
pub fn contains_sub(h: &str, n: &str) -> (r: bool)
    ensures
        r == contains_seq(h@, n@),
{
    let hl = h.unicode_len();
    let nl = n.unicode_len();
    if nl > hl {
        proof {
            assert(forall|i: int| !occurs_at(h@, n@, i));
        }
        return false;
    }
    if nl == 0 {
        proof {
            assert(occurs_at(h@, n@, 0));
        }
        return true;
    }
    let mut i: usize = 0;
    while i <= hl - nl
        invariant
            hl == h@.len(),
            nl == n@.len(),
            0 < nl <= hl,
            0 <= i <= hl - nl + 1,
            forall|k: int| 0 <= k < i ==> !occurs_at(h@, n@, k),
        decreases hl - i,
    {
        if matches_at(h, n, i) {
            return true;
        }
        i = i + 1;
    }
    proof {
        assert(forall|k: int| k > hl - nl ==> !occurs_at(h@, n@, k));
        assert(forall|k: int| !occurs_at(h@, n@, k));
    }
    false
}

} // verus!
