//! Character-level helpers: prefix tests, comma splitting and whitespace
//! trimming, with specifications over `Seq<char>`.

use vstd::prelude::*;

verus! {

/// An ASCII whitespace character, as trimmed around proxy-header entries.
pub open spec fn is_space_char(c: char) -> bool {
    c == ' ' || c == '\t' || c == '\r' || c == '\n'
}

/// Index of the first comma in `s`, or `s.len()` when there is none.
pub open spec fn first_comma(s: Seq<char>) -> int
    decreases s.len(),
{
    if s.len() == 0 {
        0
    } else if s[0] == ',' {
        0
    } else {
        1 + first_comma(s.drop_first())
    }
}

proof fn lemma_first_comma(s: Seq<char>)
    ensures
        0 <= first_comma(s) <= s.len(),
        forall|j: int| 0 <= j < first_comma(s) ==> s[j] != ',',
        first_comma(s) < s.len() ==> s[first_comma(s)] == ',',
    decreases s.len(),
{
    if s.len() != 0 && s[0] != ',' {
        lemma_first_comma(s.drop_first());
        assert forall|j: int| 0 <= j < first_comma(s) implies s[j] != ',' by {
            if j > 0 {
                assert(s.drop_first()[j - 1] != ',');
            }
        }
    }
}

/// The entry before the first comma of `s` (all of `s` when there is none).
pub open spec fn before_comma(s: Seq<char>) -> Seq<char> {
    s.take(first_comma(s))
}

/// Number of leading whitespace characters of `s`.
pub open spec fn trim_start_idx(s: Seq<char>) -> int
    decreases s.len(),
{
    if s.len() == 0 {
        0
    } else if is_space_char(s[0]) {
        1 + trim_start_idx(s.drop_first())
    } else {
        0
    }
}

/// Length of `s` once trailing whitespace is dropped.
pub open spec fn trim_end_idx(s: Seq<char>) -> int
    decreases s.len(),
{
    if s.len() == 0 {
        0
    } else if is_space_char(s[s.len() - 1]) {
        trim_end_idx(s.drop_last())
    } else {
        s.len() as int
    }
}

/// `s` with surrounding whitespace removed.
pub open spec fn trimmed(s: Seq<char>) -> Seq<char> {
    if trim_start_idx(s) <= trim_end_idx(s) {
        s.subrange(trim_start_idx(s), trim_end_idx(s))
    } else {
        Seq::empty()
    }
}

proof fn lemma_trim_start(s: Seq<char>)
    ensures
        0 <= trim_start_idx(s) <= s.len(),
        forall|j: int| 0 <= j < trim_start_idx(s) ==> is_space_char(s[j]),
        trim_start_idx(s) < s.len() ==> !is_space_char(s[trim_start_idx(s)]),
    decreases s.len(),
{
    if s.len() != 0 && is_space_char(s[0]) {
        lemma_trim_start(s.drop_first());
        assert forall|j: int| 0 <= j < trim_start_idx(s) implies is_space_char(s[j]) by {
            if j > 0 {
                assert(is_space_char(s.drop_first()[j - 1]));
            }
        }
    }
}

proof fn lemma_trim_end(s: Seq<char>)
    ensures
        0 <= trim_end_idx(s) <= s.len(),
        forall|j: int| trim_end_idx(s) <= j < s.len() ==> is_space_char(s[j]),
        trim_end_idx(s) > 0 ==> !is_space_char(s[trim_end_idx(s) - 1]),
    decreases s.len(),
{
    if s.len() != 0 && is_space_char(s[s.len() - 1]) {
        lemma_trim_end(s.drop_last());
        assert forall|j: int| trim_end_idx(s) <= j < s.len() implies is_space_char(s[j]) by {
            if j < s.len() - 1 {
                assert(is_space_char(s.drop_last()[j]));
            }
        }
    }
}

/// True when `prefix` is a prefix of `s`, character for character.
pub fn str_has_prefix(prefix: &str, s: &str) -> (r: bool)
    ensures
        r == prefix@.is_prefix_of(s@),
{
    let plen = prefix.unicode_len();
    let slen = s.unicode_len();
    if plen > slen {
        return false;
    }
    let mut i: usize = 0;
    while i < plen
        invariant
            0 <= i <= plen,
            plen <= slen,
            plen == prefix@.len(),
            slen == s@.len(),
            forall|j: int| 0 <= j < i ==> prefix@[j] == s@[j],
        decreases plen - i,
    {
        if prefix.get_char(i) != s.get_char(i) {
            return false;
        }
        i += 1;
    }
    assert(prefix@ =~= s@.subrange(0, plen as int));
    true
}

/// Is this character ASCII whitespace?
fn is_space(c: char) -> (r: bool)
    ensures
        r == is_space_char(c),
{
    c == ' ' || c == '\t' || c == '\r' || c == '\n'
}

/// The entry before the first comma of `s`, with surrounding whitespace
/// removed.
pub fn first_entry_trimmed(s: &str) -> (r: String)
    ensures
        r@ == trimmed(before_comma(s@)),
{
    let n = s.unicode_len();
    let mut c: usize = 0;
    while c < n && s.get_char(c) != ','
        invariant
            0 <= c <= n,
            n == s@.len(),
            forall|j: int| 0 <= j < c ==> s@[j] != ',',
        decreases n - c,
    {
        c += 1;
    }
    proof {
        lemma_first_comma(s@);
        assert(first_comma(s@) == c as int);
    }
    let ghost p = before_comma(s@);
    let mut a: usize = 0;
    while a < c && is_space(s.get_char(a))
        invariant
            0 <= a <= c <= n,
            n == s@.len(),
            forall|j: int| 0 <= j < a ==> is_space_char(s@[j]),
        decreases c - a,
    {
        a += 1;
    }
    let mut b: usize = c;
    while b > a && is_space(s.get_char(b - 1))
        invariant
            0 <= a <= b <= c <= n,
            n == s@.len(),
            forall|j: int| b <= j < c ==> is_space_char(s@[j]),
        decreases b,
    {
        b -= 1;
    }
    proof {
        lemma_trim_start(p);
        lemma_trim_end(p);
        assert(p.len() == c as int);
        assert(forall|j: int| 0 <= j < c ==> p[j] == s@[j]);
        let tsi = trim_start_idx(p);
        let tei = trim_end_idx(p);
        if a < c {
            assert(!is_space_char(p[a as int]));
            if tsi < a {
                assert(!is_space_char(p[tsi]));
                assert(is_space_char(p[tsi]));
            }
            if tsi > a {
                assert(is_space_char(p[a as int]));
            }
        } else {
            if tsi < c {
                assert(!is_space_char(p[tsi]));
                assert(is_space_char(p[tsi]));
            }
        }
        assert(tsi == a as int);
        if b > a {
            assert(!is_space_char(p[b - 1]));
            if tei < b {
                assert(is_space_char(p[b - 1]));
            }
            if tei > b {
                assert(!is_space_char(p[tei - 1]));
                assert(is_space_char(p[tei - 1]));
            }
            assert(tei == b as int);
        } else {
            assert(b == a);
            assert(forall|j: int| 0 <= j < c ==> is_space_char(p[j]));
            if tei > 0 {
                assert(!is_space_char(p[tei - 1]));
                assert(is_space_char(p[tei - 1]));
            }
            assert(tei == 0);
            assert(tsi == a as int && a == c);
        }
    }
    let out = s.substring_char(a, b);
    proof {
        assert(out@ =~= trimmed(p));
    }
    out.to_owned()
}

} // verus!
