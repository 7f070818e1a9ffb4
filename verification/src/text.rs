//! Character-level string helpers with exact contracts over `Seq<char>`.

use vstd::prelude::*;
use vstd::string::*;

verus! {

pub open spec fn is_ascii_digit(c: char) -> bool {
    '0' <= c && c <= '9'
}

pub open spec fn is_ascii_alphanumeric(c: char) -> bool {
    ('0' <= c && c <= '9') || ('a' <= c && c <= 'z') || ('A' <= c && c <= 'Z')
}

/// First position of `c` in `s`, if any.
pub open spec fn first_index_of(s: Seq<char>, c: char) -> Option<int>
    decreases s.len(),
{
    if s.len() == 0 {
        None
    } else if s[0] == c {
        Some(0)
    } else {
        match first_index_of(s.drop_first(), c) {
            Some(i) => Some(i + 1),
            None => None,
        }
    }
}

/// Last position of `c` in `s`, if any.
pub open spec fn last_index_of(s: Seq<char>, c: char) -> Option<int>
    decreases s.len(),
{
    if s.len() == 0 {
        None
    } else if s.last() == c {
        Some(s.len() - 1)
    } else {
        last_index_of(s.drop_last(), c)
    }
}

pub proof fn lemma_first_index_of(s: Seq<char>, c: char)
    ensures
        match first_index_of(s, c) {
            Some(i) => 0 <= i < s.len() && s[i] == c && forall|j: int| 0 <= j < i ==> s[j] != c,
            None => forall|j: int| 0 <= j < s.len() ==> s[j] != c,
        },
    decreases s.len(),
{
    if s.len() > 0 && s[0] != c {
        lemma_first_index_of(s.drop_first(), c);
        match first_index_of(s.drop_first(), c) {
            Some(i) => {
                assert forall|j: int| 0 <= j < i + 1 implies s[j] != c by {
                    if j > 0 {
                        assert(s[j] == s.drop_first()[j - 1]);
                    }
                }
            },
            None => {
                assert forall|j: int| 0 <= j < s.len() implies s[j] != c by {
                    if j > 0 {
                        assert(s[j] == s.drop_first()[j - 1]);
                    }
                }
            },
        }
    }
}

pub proof fn lemma_last_index_of(s: Seq<char>, c: char)
    ensures
        match last_index_of(s, c) {
            Some(i) => 0 <= i < s.len() && s[i] == c && forall|j: int| i < j < s.len() ==> s[j] != c,
            None => forall|j: int| 0 <= j < s.len() ==> s[j] != c,
        },
    decreases s.len(),
{
    if s.len() > 0 && s.last() != c {
        lemma_last_index_of(s.drop_last(), c);
        assert forall|j: int| 0 <= j < s.len() - 1 implies s[j] == s.drop_last()[j] by {}
    }
}

/// Characters of `s` equal those of `t`.
pub fn str_eq(s: &str, t: &str) -> (eq: bool)
    ensures
        eq == (s@ == t@),
{
    let n = s.unicode_len();
    if n != t.unicode_len() {
        return false;
    }
    let mut i: usize = 0;
    while i < n
        invariant
            n == s@.len(),
            n == t@.len(),
            i <= n,
            forall|j: int| 0 <= j < i ==> s@[j] == t@[j],
        decreases n - i,
    {
        if s.get_char(i) != t.get_char(i) {
            return false;
        }
        i += 1;
    }
    assert(s@ =~= t@);
    true
}

/// `prefix` is a prefix of `s`.
pub fn starts_with(s: &str, prefix: &str) -> (r: bool)
    ensures
        r == prefix@.is_prefix_of(s@),
{
    let n = s.unicode_len();
    let m = prefix.unicode_len();
    if m > n {
        return false;
    }
    let mut i: usize = 0;
    while i < m
        invariant
            n == s@.len(),
            m == prefix@.len(),
            m <= n,
            i <= m,
            forall|j: int| 0 <= j < i ==> s@[j] == prefix@[j],
        decreases m - i,
    {
        if s.get_char(i) != prefix.get_char(i) {
            assert(!prefix@.is_prefix_of(s@)) by {
                if prefix@.is_prefix_of(s@) {
                    assert(s@.subrange(0, m as int)[i as int] == s@[i as int]);
                }
            }
            return false;
        }
        i += 1;
    }
    assert(prefix@ =~= s@.subrange(0, m as int));
    true
}

/// `s` without `prefix`, when it starts with it.
pub fn strip_prefix<'a>(s: &'a str, prefix: &str) -> (rest: Option<&'a str>)
    ensures
        match rest {
            Some(r) => prefix@.is_prefix_of(s@) && r@ == s@.skip(prefix@.len() as int),
            None => !prefix@.is_prefix_of(s@),
        },
{
    if starts_with(s, prefix) {
        let n = s.unicode_len();
        let m = prefix.unicode_len();
        let r = s.substring_char(m, n);
        assert(r@ =~= s@.skip(prefix@.len() as int));
        Some(r)
    } else {
        None
    }
}

/// Characters `from..to` of `s`.
pub fn slice_chars<'a>(s: &'a str, from: usize, to: usize) -> (r: &'a str)
    requires
        from <= to <= s@.len(),
    ensures
        r@ == s@.subrange(from as int, to as int),
{
    s.substring_char(from, to)
}

/// Position of the first `c` in `s`.
pub fn find_char(s: &str, c: char) -> (r: Option<usize>)
    ensures
        r matches Some(i) ==> first_index_of(s@, c) == Some(i as int),
        r is None ==> first_index_of(s@, c) is None,
{
    proof {
        lemma_first_index_of(s@, c);
    }
    let n = s.unicode_len();
    let mut i: usize = 0;
    while i < n
        invariant
            n == s@.len(),
            i <= n,
            forall|j: int| 0 <= j < i ==> s@[j] != c,
            match first_index_of(s@, c) {
                Some(k) => 0 <= k < s@.len() && s@[k] == c && forall|j: int| 0 <= j < k ==> s@[j] != c,
                None => forall|j: int| 0 <= j < s@.len() ==> s@[j] != c,
            },
        decreases n - i,
    {
        if s.get_char(i) == c {
            return Some(i);
        }
        i += 1;
    }
    None
}

/// Position of the last `c` in `s`.
pub fn rfind_char(s: &str, c: char) -> (r: Option<usize>)
    ensures
        r matches Some(i) ==> last_index_of(s@, c) == Some(i as int),
        r is None ==> last_index_of(s@, c) is None,
{
    proof {
        lemma_last_index_of(s@, c);
    }
    let n = s.unicode_len();
    let mut i: usize = n;
    while i > 0
        invariant
            n == s@.len(),
            i <= n,
            forall|j: int| i <= j < n ==> s@[j] != c,
            match last_index_of(s@, c) {
                Some(k) => 0 <= k < s@.len() && s@[k] == c && forall|j: int| k < j < s@.len() ==> s@[j] != c,
                None => forall|j: int| 0 <= j < s@.len() ==> s@[j] != c,
            },
        decreases i,
    {
        if s.get_char(i - 1) == c {
            return Some(i - 1);
        }
        i -= 1;
    }
    None
}

/// `s` cut at its first `c`: the part before and the part after it.
pub open spec fn split_at_first(s: Seq<char>, c: char) -> Option<(Seq<char>, Seq<char>)> {
    match first_index_of(s, c) {
        Some(i) => Some((s.subrange(0, i), s.subrange(i + 1, s.len() as int))),
        None => None,
    }
}

/// `s` cut at its last `c`: the part before and the part after it.
pub open spec fn split_at_last(s: Seq<char>, c: char) -> Option<(Seq<char>, Seq<char>)> {
    match last_index_of(s, c) {
        Some(i) => Some((s.subrange(0, i), s.subrange(i + 1, s.len() as int))),
        None => None,
    }
}

/// `s` up to (not including) its first `c`, or all of `s`.
pub open spec fn up_to_first(s: Seq<char>, c: char) -> Seq<char> {
    match first_index_of(s, c) {
        Some(i) => s.subrange(0, i),
        None => s,
    }
}

/// Cuts `s` at its first `c` (as `splitn(2, c)` does when `c` occurs).
pub fn split_first<'a>(s: &'a str, c: char) -> (r: Option<(&'a str, &'a str)>)
    ensures
        match r {
            Some(parts) => split_at_first(s@, c) == Some((parts.0@, parts.1@)),
            None => split_at_first(s@, c) is None,
        },
{
    proof {
        lemma_first_index_of(s@, c);
    }
    match find_char(s, c) {
        Some(i) => {
            let n = s.unicode_len();
            Some((slice_chars(s, 0, i), slice_chars(s, i + 1, n)))
        },
        None => None,
    }
}

/// Cuts `s` at its last `c` (as `rsplitn(2, c)` does when `c` occurs).
pub fn split_last<'a>(s: &'a str, c: char) -> (r: Option<(&'a str, &'a str)>)
    ensures
        match r {
            Some(parts) => split_at_last(s@, c) == Some((parts.0@, parts.1@)),
            None => split_at_last(s@, c) is None,
        },
{
    proof {
        lemma_last_index_of(s@, c);
    }
    match rfind_char(s, c) {
        Some(i) => {
            let n = s.unicode_len();
            Some((slice_chars(s, 0, i), slice_chars(s, i + 1, n)))
        },
        None => None,
    }
}

/// `s` up to its first `c` (the first item of `split(c)`).
pub fn first_field<'a>(s: &'a str, c: char) -> (r: &'a str)
    ensures
        r@ == up_to_first(s@, c),
{
    proof {
        lemma_first_index_of(s@, c);
    }
    match find_char(s, c) {
        Some(i) => slice_chars(s, 0, i),
        None => s,
    }
}

} // verus!

verus! {

/// `s` with every occurrence of `pattern` replaced by `with`, scanning from
/// the left without overlaps (as `str::replace` does for a non-empty pattern).
pub open spec fn replaced(s: Seq<char>, pattern: Seq<char>, with: Seq<char>) -> Seq<char>
    decreases s.len(),
{
    if s.len() == 0 {
        Seq::empty()
    } else if pattern.len() > 0 && pattern.is_prefix_of(s) {
        with + replaced(s.skip(pattern.len() as int), pattern, with)
    } else {
        seq![s[0]] + replaced(s.drop_first(), pattern, with)
    }
}

/// Replaces every occurrence of a non-empty `pattern` in `s`.
pub fn replace_all(s: &str, pattern: &str, with: &str) -> (r: String)
    requires
        pattern@.len() > 0,
    ensures
        r@ == replaced(s@, pattern@, with@),
{
    let n = s.unicode_len();
    let m = pattern.unicode_len();
    let mut out = String::new();
    let mut i: usize = 0;
    assert(s@.skip(0) =~= s@);
    assert(out@ + replaced(s@, pattern@, with@) =~= replaced(s@, pattern@, with@));
    while i < n
        invariant
            n == s@.len(),
            m == pattern@.len(),
            m > 0,
            i <= n,
            out@ + replaced(s@.skip(i as int), pattern@, with@) == replaced(s@, pattern@, with@),
        decreases n - i,
    {
        let rest = s.substring_char(i, n);
        assert(rest@ =~= s@.skip(i as int));
        if starts_with(rest, pattern) {
            let ghost before = out@;
            out.append(with);
            proof {
                assert(s@.skip(i as int).skip(m as int) =~= s@.skip(i + m));
                assert(before + (with@ + replaced(s@.skip(i + m), pattern@, with@)) =~= out@
                    + replaced(s@.skip(i + m), pattern@, with@));
            }
            i = i + m;
        } else {
            let ghost before = out@;
            let one = s.substring_char(i, i + 1);
            out.append(one);
            proof {
                assert(one@ =~= seq![s@[i as int]]);
                assert(s@.skip(i as int).drop_first() =~= s@.skip(i + 1));
                assert(s@.skip(i as int)[0] == s@[i as int]);
                assert(before + (seq![s@[i as int]] + replaced(s@.skip(i + 1), pattern@, with@))
                    =~= out@ + replaced(s@.skip(i + 1), pattern@, with@));
            }
            i = i + 1;
        }
    }
    assert(s@.skip(n as int) =~= Seq::<char>::empty());
    assert(out@ + Seq::<char>::empty() =~= out@);
    out
}

} // verus!
