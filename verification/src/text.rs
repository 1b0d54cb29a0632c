//! The few operations on text that the naming rules need: replacing every
//! occurrence of a pattern, and trimming a character from both ends.

use vstd::prelude::*;

verus! {

/// The pattern stands in `s` at position `at`.
pub open spec fn occurs_at(s: Seq<char>, pat: Seq<char>, at: int) -> bool {
    0 <= at && at + pat.len() <= s.len() && s.subrange(at, at + pat.len()) == pat
}

/// `s` with every occurrence of `pat` replaced by `with`. The occurrences are
/// found from left to right and do not overlap: the search goes on behind an
/// occurrence that was replaced. An empty pattern occurs nowhere.
pub open spec fn replaced(s: Seq<char>, pat: Seq<char>, with: Seq<char>) -> Seq<char>
    decreases s.len(),
{
    if pat.len() == 0 || s.len() == 0 {
        s
    } else if occurs_at(s, pat, 0) {
        with + replaced(s.skip(pat.len() as int), pat, with)
    } else {
        seq![s[0]] + replaced(s.skip(1), pat, with)
    }
}

/// `s` without the run of `c` at its beginning.
pub open spec fn trimmed_start(s: Seq<char>, c: char) -> Seq<char>
    decreases s.len(),
{
    if s.len() > 0 && s[0] == c {
        trimmed_start(s.skip(1), c)
    } else {
        s
    }
}

/// `s` without the run of `c` at its end.
pub open spec fn trimmed_end(s: Seq<char>, c: char) -> Seq<char>
    decreases s.len(),
{
    if s.len() > 0 && s.last() == c {
        trimmed_end(s.drop_last(), c)
    } else {
        s
    }
}

/// `s` without the runs of `c` at its beginning and at its end.
pub open spec fn trimmed(s: Seq<char>, c: char) -> Seq<char> {
    trimmed_end(trimmed_start(s, c), c)
}

/// Whether the pattern stands in `s` at position `at`.
pub fn matches_at(s: &str, pat: &str, at: usize) -> (found: bool)
    ensures
        found == occurs_at(s@, pat@, at as int),
{
    let n: usize = s.unicode_len();
    let m: usize = pat.unicode_len();
    if at > n || m > n - at {
        return false;
    }
    let mut k: usize = 0;
    while k < m
        invariant
            k <= m,
            n == s@.len(),
            m == pat@.len(),
            at + m <= n,
            forall|j: int| 0 <= j < k ==> s@[at + j] == pat@[j],
        decreases m - k,
    {
        if s.get_char(at + k) != pat.get_char(k) {
            assert(s@.subrange(at as int, at + m)[k as int] != pat@[k as int]);
            return false;
        }
        k += 1;
    }
    assert(s@.subrange(at as int, at + m) =~= pat@);
    true
}

/// Replaces every occurrence of `pat` in `s` by `with`.
pub fn replace_all(s: &str, pat: &str, with: &str) -> (r: String)
    ensures
        r@ == replaced(s@, pat@, with@),
{
    let n: usize = s.unicode_len();
    let m: usize = pat.unicode_len();
    if m == 0 {
        return String::from_str(s);
    }
    let mut out: String = String::new();
    let mut i: usize = 0;
    assert(s@.skip(0) =~= s@);
    while i < n
        invariant
            i <= n,
            n == s@.len(),
            m == pat@.len(),
            m > 0,
            out@ + replaced(s@.skip(i as int), pat@, with@) == replaced(s@, pat@, with@),
        decreases n - i,
    {
        let ghost rest = s@.skip(i as int);
        let ghost done = out@;
        proof {
            if i + m <= n {
                assert(rest.subrange(0, m as int) =~= s@.subrange(i as int, i + m));
            }
        }
        if matches_at(s, pat, i) {
            assert(occurs_at(rest, pat@, 0));
            assert(rest.skip(m as int) =~= s@.skip(i + m));
            out.append(with);
            i += m;
            assert(out@ + replaced(s@.skip(i as int), pat@, with@) =~= done + replaced(
                rest,
                pat@,
                with@,
            ));
        } else {
            assert(!occurs_at(rest, pat@, 0));
            assert(rest.skip(1) =~= s@.skip(i + 1));
            assert(s@.subrange(i as int, i + 1) =~= seq![rest[0]]);
            out.append(s.substring_char(i, i + 1));
            i += 1;
            assert(out@ + replaced(s@.skip(i as int), pat@, with@) =~= done + replaced(
                rest,
                pat@,
                with@,
            ));
        }
    }
    assert(out@ + replaced(s@.skip(n as int), pat@, with@) =~= out@);
    out
}

/// Removes the runs of `c` at the beginning and at the end of `s`.
pub fn trim_matches(s: &str, c: char) -> (r: String)
    ensures
        r@ == trimmed(s@, c),
{
    let n: usize = s.unicode_len();
    let mut start: usize = 0;
    assert(s@.skip(0) =~= s@);
    while start < n && s.get_char(start) == c
        invariant
            start <= n,
            n == s@.len(),
            trimmed_start(s@, c) == trimmed_start(s@.skip(start as int), c),
        decreases n - start,
    {
        assert(s@.skip(start as int).skip(1) =~= s@.skip(start + 1));
        start += 1;
    }
    assert(trimmed_start(s@, c) =~= s@.subrange(start as int, n as int));
    let mut end: usize = n;
    while end > start && s.get_char(end - 1) == c
        invariant
            start <= end <= n,
            n == s@.len(),
            trimmed(s@, c) == trimmed_end(s@.subrange(start as int, end as int), c),
        decreases end,
    {
        assert(s@.subrange(start as int, end as int).drop_last() =~= s@.subrange(
            start as int,
            end - 1,
        ));
        end -= 1;
    }
    String::from_str(s.substring_char(start, end))
}

/// `a` followed by `b`.
pub fn joined(a: &str, b: &str) -> (r: String)
    ensures
        r@ == a@ + b@,
{
    let mut out: String = String::from_str(a);
    out.append(b);
    out
}

/// The views of a list of strings, in order.
pub open spec fn string_views(v: Seq<String>) -> Seq<Seq<char>> {
    Seq::new(v.len(), |i: int| v[i]@)
}

/// Copies a list of strings element by element.
pub fn clone_strings(v: &Vec<String>) -> (r: Vec<String>)
    ensures
        string_views(r@) == string_views(v@),
{
    let mut out: Vec<String> = Vec::new();
    let mut i: usize = 0;
    while i < v.len()
        invariant
            i <= v.len(),
            out@.len() == i,
            forall|k: int| 0 <= k < i ==> out@[k]@ == v@[k]@,
        decreases v.len() - i,
    {
        out.push(v[i].clone());
        i += 1;
    }
    assert(string_views(out@) =~= string_views(v@));
    out
}

/// Appends a copy of `s` to a list of strings.
pub fn push_str(list: &mut Vec<String>, s: &str)
    ensures
        string_views(final(list)@) == string_views(old(list)@).push(s@),
{
    list.push(String::from_str(s));
    assert(string_views(list@) =~= string_views(old(list)@).push(s@));
}

} // verus!
