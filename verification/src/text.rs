//! Verified text utilities the bridge is built on: substring search and
//! leftmost non-overlapping replacement over character sequences.

use vstd::prelude::*;

verus! {

use vstd::string::StrSliceExecFns;
use vstd::string::StringExecFns;

/// `pat` occurs in `s` starting at position `i`.
pub open spec fn match_at(s: Seq<char>, pat: Seq<char>, i: int) -> bool {
    &&& 0 <= i
    &&& i + pat.len() <= s.len()
    &&& s.subrange(i, i + pat.len() as int) == pat
}

/// `pat` occurs somewhere in `s`.
pub open spec fn spec_contains(s: Seq<char>, pat: Seq<char>) -> bool {
    exists|i: int| match_at(s, pat, i)
}

/// Position of the first occurrence of `pat` in `s` at or after `from`,
/// if there is one.
pub open spec fn spec_find_from(s: Seq<char>, pat: Seq<char>, from: int) -> Option<int>
    decreases s.len() - from,
    via spec_find_from_dec
{
    if from < 0 || from + pat.len() > s.len() {
        None
    } else if match_at(s, pat, from) {
        Some(from)
    } else {
        spec_find_from(s, pat, from + 1)
    }
}

#[via_fn]
proof fn spec_find_from_dec(s: Seq<char>, pat: Seq<char>, from: int) {
    if !(from < 0 || from + pat.len() > s.len()) && !match_at(s, pat, from) {
        if pat.len() == 0 {
            assert(s.subrange(from, from + pat.len() as int) =~= pat);
        }
    }
}

/// Position of the leftmost occurrence of `pat` in `s`, if there is one.
pub open spec fn spec_find(s: Seq<char>, pat: Seq<char>) -> Option<int> {
    spec_find_from(s, pat, 0)
}

/// A found position is a real match, and the first one at or after `from`.
pub proof fn lemma_find_from_some(s: Seq<char>, pat: Seq<char>, from: int, j: int)
    requires
        spec_find_from(s, pat, from) == Some(j),
    ensures
        from <= j,
        match_at(s, pat, j),
        forall|k: int| from <= k < j ==> !match_at(s, pat, k),
    decreases s.len() - from,
{
    if from < 0 || from + pat.len() > s.len() {
    } else if match_at(s, pat, from) {
    } else {
        if pat.len() == 0 {
            assert(s.subrange(from, from + pat.len() as int) =~= pat);
        }
        lemma_find_from_some(s, pat, from + 1, j);
    }
}

/// When the search comes back empty there is no match at or after `from`.
pub proof fn lemma_find_from_none(s: Seq<char>, pat: Seq<char>, from: int)
    requires
        from >= 0,
        spec_find_from(s, pat, from) is None,
    ensures
        forall|k: int| from <= k ==> !match_at(s, pat, k),
    decreases s.len() - from,
{
    if from + pat.len() > s.len() {
    } else if match_at(s, pat, from) {
        assert(false);
    } else {
        if pat.len() == 0 {
            assert(s.subrange(from, from + pat.len() as int) =~= pat);
        }
        lemma_find_from_none(s, pat, from + 1);
    }
}

/// The converse direction: a match at or after `from` means the search
/// finds one.
pub proof fn lemma_find_from_finds(s: Seq<char>, pat: Seq<char>, from: int, k: int)
    requires
        from >= 0,
        from <= k,
        match_at(s, pat, k),
    ensures
        spec_find_from(s, pat, from) is Some,
    decreases s.len() - from,
{
    if from + pat.len() > s.len() {
        assert(k + pat.len() <= s.len());
    } else if match_at(s, pat, from) {
    } else {
        assert(k != from);
        lemma_find_from_finds(s, pat, from + 1, k);
    }
}

/// Searching the whole of `s` from position `base + t` is the same as
/// searching the suffix that starts at `base` from position `t`, up to
/// the shift.
pub proof fn lemma_find_shift(s: Seq<char>, pat: Seq<char>, base: int, t: int)
    requires
        0 <= base <= s.len(),
        0 <= t,
    ensures
        spec_find_from(s, pat, base + t) == match spec_find_from(
            s.subrange(base, s.len() as int),
            pat,
            t,
        ) {
            Some(j) => Some(base + j),
            None => None::<int>,
        },
    decreases s.len() - base - t,
{
    let suf = s.subrange(base, s.len() as int);
    if base + t + pat.len() > s.len() {
        assert(t + pat.len() > suf.len());
    } else {
        assert(s.subrange(base + t, base + t + pat.len() as int) =~= suf.subrange(
            t,
            t + pat.len() as int,
        ));
        if match_at(s, pat, base + t) {
            assert(match_at(suf, pat, t));
        } else {
            assert(!match_at(suf, pat, t));
            if pat.len() == 0 {
                assert(s.subrange(base + t, base + t + pat.len() as int) =~= pat);
            }
            lemma_find_shift(s, pat, base, t + 1);
        }
    }
}

/// The result of replacing every leftmost, non-overlapping occurrence of
/// `pat` in `s` by `to`. A search pattern of length zero leaves `s`
/// unchanged.
pub open spec fn spec_replace(s: Seq<char>, pat: Seq<char>, to: Seq<char>) -> Seq<char>
    decreases s.len(),
    via spec_replace_dec
{
    if pat.len() == 0 {
        s
    } else {
        match spec_find(s, pat) {
            None => s,
            Some(j) => s.subrange(0, j) + to + spec_replace(
                s.subrange(j + pat.len() as int, s.len() as int),
                pat,
                to,
            ),
        }
    }
}

#[via_fn]
proof fn spec_replace_dec(s: Seq<char>, pat: Seq<char>, to: Seq<char>) {
    if pat.len() > 0 {
        if let Some(j) = spec_find(s, pat) {
            lemma_find_from_some(s, pat, 0, j);
        }
    }
}

/// A match with nothing before it is exactly what the search finds.
pub proof fn lemma_find_is(s: Seq<char>, pat: Seq<char>, j: int)
    requires
        match_at(s, pat, j),
        forall|k: int| 0 <= k < j ==> !match_at(s, pat, k),
    ensures
        spec_find(s, pat) == Some(j),
{
    lemma_find_from_finds(s, pat, 0, j);
    match spec_find(s, pat) {
        Some(j2) => {
            lemma_find_from_some(s, pat, 0, j2);
        },
        None => {
            assert(false);
        },
    }
}

/// A pattern that matches nowhere is not found.
pub proof fn lemma_find_is_none(s: Seq<char>, pat: Seq<char>)
    requires
        forall|k: int| !match_at(s, pat, k),
    ensures
        spec_find(s, pat) is None,
{
    if let Some(j) = spec_find(s, pat) {
        lemma_find_from_some(s, pat, 0, j);
    }
}

/// The character `c` occurs nowhere in `s`.
pub open spec fn seq_lacks(s: Seq<char>, c: char) -> bool {
    forall|i: int| 0 <= i < s.len() ==> s[i] != c
}

/// After replacing `pat` by `to`, no occurrence of `pat` remains —
/// provided a new occurrence cannot be stitched together at a seam: `to`
/// contains neither the first nor the last character of `pat`, and `to`
/// does not occur inside `pat` itself.
pub proof fn lemma_replace_removes(s: Seq<char>, pat: Seq<char>, to: Seq<char>)
    requires
        pat.len() > 0,
        seq_lacks(to, pat[0]),
        seq_lacks(to, pat.last()),
        !spec_contains(pat, to),
    ensures
        !spec_contains(spec_replace(s, pat, to), pat),
    decreases s.len(),
{
    let r = spec_replace(s, pat, to);
    let p = pat.len() as int;
    let t = to.len() as int;
    match spec_find(s, pat) {
        None => {
            lemma_find_from_none(s, pat, 0);
            assert forall|pos: int| !match_at(r, pat, pos) by {
                if match_at(r, pat, pos) {
                    assert(pos >= 0);
                }
            }
        },
        Some(j) => {
            lemma_find_from_some(s, pat, 0, j);
            let a = s.subrange(0, j);
            let rest = s.subrange(j + p, s.len() as int);
            let c = spec_replace(rest, pat, to);
            lemma_replace_removes(rest, pat, to);
            assert(r == a + to + c);
            assert forall|pos: int| !match_at(r, pat, pos) by {
                if match_at(r, pat, pos) {
                    lemma_no_seam_occurrence(s, pat, to, j, pat, pos);
                    if pos + p <= j {
                        assert(false);
                    } else {
                        assert(match_at(c, pat, pos - j - t));
                        assert(false);
                    }
                }
            }
        },
    }
}

/// Replacing `pat` by `to` creates no occurrence of a token `q` that was
/// not already in the text — under the same seam conditions, now for `q`:
/// `to` contains neither the first nor the last character of `q`, and
/// `to` does not occur inside `q`.
pub proof fn lemma_replace_monotone(s: Seq<char>, pat: Seq<char>, to: Seq<char>, q: Seq<char>)
    requires
        pat.len() > 0,
        q.len() > 0,
        seq_lacks(to, q[0]),
        seq_lacks(to, q.last()),
        !spec_contains(q, to),
        spec_contains(spec_replace(s, pat, to), q),
    ensures
        spec_contains(s, q),
    decreases s.len(),
{
    let r = spec_replace(s, pat, to);
    let p = pat.len() as int;
    let t = to.len() as int;
    let ql = q.len() as int;
    let pos = choose|pos: int| match_at(r, q, pos);
    match spec_find(s, pat) {
        None => {
            assert(match_at(s, q, pos));
        },
        Some(j) => {
            lemma_find_from_some(s, pat, 0, j);
            let a = s.subrange(0, j);
            let rest = s.subrange(j + p, s.len() as int);
            let c = spec_replace(rest, pat, to);
            assert(r == a + to + c);
            lemma_no_seam_occurrence(s, pat, to, j, q, pos);
            if pos + ql <= j {
                assert(s.subrange(pos, pos + ql) =~= r.subrange(pos, pos + ql));
                assert(match_at(s, q, pos));
            } else {
                assert(match_at(c, q, pos - j - t));
                assert(spec_contains(c, q));
                lemma_replace_monotone(rest, pat, to, q);
                let k = choose|k: int| match_at(rest, q, k);
                assert(s.subrange(j + p + k, j + p + k + ql) =~= rest.subrange(k, k + ql));
                assert(match_at(s, q, j + p + k));
            }
        },
    }
}

/// The shared seam argument: when the text decomposes as
/// `prefix + to + tail` around the first match of `pat` at `j`, an
/// occurrence of a token `q` in the result either lies wholly in the
/// prefix — and then it was an occurrence in `s` — or wholly in the
/// tail; it cannot straddle the inserted `to`.
proof fn lemma_no_seam_occurrence(
    s: Seq<char>,
    pat: Seq<char>,
    to: Seq<char>,
    j: int,
    q: Seq<char>,
    pos: int,
)
    requires
        pat.len() > 0,
        q.len() > 0,
        seq_lacks(to, q[0]),
        seq_lacks(to, q.last()),
        !spec_contains(q, to),
        spec_find(s, pat) == Some(j),
        match_at(
            spec_replace(s, pat, to),
            q,
            pos,
        ),
    ensures
        pos + q.len() <= j || pos >= j + to.len(),
        pos + q.len() <= j ==> match_at(s, q, pos),
        pos >= j + to.len() ==> match_at(
            spec_replace(s.subrange(j + pat.len() as int, s.len() as int), pat, to),
            q,
            pos - j - to.len(),
        ),
{
    lemma_find_from_some(s, pat, 0, j);
    let r = spec_replace(s, pat, to);
    let p = pat.len() as int;
    let t = to.len() as int;
    let ql = q.len() as int;
    let a = s.subrange(0, j);
    let rest = s.subrange(j + p, s.len() as int);
    let c = spec_replace(rest, pat, to);
    assert(r == a + to + c);
    assert forall|i: int| 0 <= i < ql implies r[pos + i] == q[i] by {
        assert(r.subrange(pos, pos + ql)[i] == q[i]);
    }
    if pos + ql <= j {
        assert(s.subrange(pos, pos + ql) =~= r.subrange(pos, pos + ql));
    } else if pos >= j + t {
        assert(pos + ql <= j + t + c.len());
        assert forall|i: int| 0 <= i < ql implies c[pos - j - t + i] == q[i] by {
            assert(r[pos + i] == q[i]);
        }
        assert(c.subrange(pos - j - t, pos - j - t + ql) =~= q);
    } else if pos >= j {
        assert(r[pos] == to[pos - j]);
        assert(r[pos] == q[0]);
        assert(false);
    } else {
        let e = pos + ql - 1;
        assert(e >= j);
        if e < j + t {
            assert(r[e] == to[e - j]);
            assert(r[e] == q[ql - 1]);
            assert(q[ql - 1] == q.last());
            assert(false);
        } else {
            assert forall|i: int| 0 <= i < t implies q[j - pos + i] == to[i] by {
                assert(r[j + i] == to[i]);
                assert(r[pos + (j - pos + i)] == q[j - pos + i]);
            }
            assert(q.subrange(j - pos, j - pos + t) =~= to);
            assert(match_at(q, to, j - pos));
            assert(spec_contains(q, to));
            assert(false);
        }
    }
}

/// Does `pat` occur in `s` starting at `i`? Checked character by
/// character.
#[verifier::loop_isolation(false)]
pub fn match_at_exec(s: &str, pat: &str, i: usize, m: usize) -> (r: bool)
    requires
        m == pat@.len(),
        i + m <= s@.len(),
        s@.len() <= usize::MAX,
    ensures
        r == match_at(s@, pat@, i as int),
{
    let mut j: usize = 0;
    while j < m
        invariant
            j <= m,
            forall|k: int| 0 <= k < j ==> s@[i + k] == pat@[k],
        decreases m - j,
    {
        let cs = s.get_char(i + j);
        let cp = pat.get_char(j);
        if cs != cp {
            assert(s@.subrange(i as int, i + m as int)[j as int] != pat@[j as int]);
            return false;
        }
        j += 1;
    }
    assert(s@.subrange(i as int, i + m as int) =~= pat@);
    true
}

/// Find the first occurrence of `pat` in `s` at or after position `from`.
#[verifier::loop_isolation(false)]
pub fn find_from(s: &str, pat: &str, from: usize) -> (r: Option<usize>)
    requires
        pat@.len() > 0,
    ensures
        match r {
            Some(j) => spec_find_from(s@, pat@, from as int) == Some(j as int),
            None => spec_find_from(s@, pat@, from as int) is None,
        },
{
    let n = s.unicode_len();
    let m = pat.unicode_len();
    if m > n || from > n - m {
        return None;
    }
    let mut i: usize = from;
    while i <= n - m
        invariant
            from <= i <= n - m + 1,
            spec_find_from(s@, pat@, from as int) == spec_find_from(s@, pat@, i as int),
        decreases n - i,
    {
        if match_at_exec(s, pat, i, m) {
            return Some(i);
        }
        i += 1;
    }
    None
}

/// Does `pat` occur anywhere in `s`?
pub fn contains_pat(s: &str, pat: &str) -> (r: bool)
    requires
        pat@.len() > 0,
    ensures
        r == spec_contains(s@, pat@),
{
    let r = find_from(s, pat, 0);
    match r {
        Some(j) => {
            proof {
                lemma_find_from_some(s@, pat@, 0, j as int);
            }
            true
        },
        None => {
            proof {
                lemma_find_from_none(s@, pat@, 0);
                assert forall|i: int| !match_at(s@, pat@, i) by {
                    if i >= 0 {
                        assert(!match_at(s@, pat@, i));
                    }
                }
            }
            false
        },
    }
}

/// Are two strings the same sequence of characters?
#[verifier::loop_isolation(false)]
pub fn str_eq(a: &str, b: &str) -> (r: bool)
    ensures
        r == (a@ == b@),
{
    let n = a.unicode_len();
    let m = b.unicode_len();
    if n != m {
        return false;
    }
    let mut i: usize = 0;
    while i < n
        invariant
            i <= n,
            forall|k: int| 0 <= k < i ==> a@[k] == b@[k],
        decreases n - i,
    {
        if a.get_char(i) != b.get_char(i) {
            return false;
        }
        i += 1;
    }
    proof {
        assert(a@ =~= b@);
    }
    true
}

/// Replace every leftmost, non-overlapping occurrence of `pat` in `s` by
/// `to`, scanning left to right.
#[verifier::loop_isolation(false)]
pub fn replace_all(s: &str, pat: &str, to: &str) -> (r: String)
    requires
        pat@.len() > 0,
    ensures
        r@ == spec_replace(s@, pat@, to@),
{
    let n = s.unicode_len();
    let m = pat.unicode_len();
    let mut res = String::new();
    let mut i: usize = 0;
    proof {
        assert(s@.subrange(0, n as int) =~= s@);
        assert(res@ + spec_replace(s@, pat@, to@) =~= spec_replace(s@, pat@, to@));
    }
    loop
        invariant
            i <= n,
            res@ + spec_replace(s@.subrange(i as int, n as int), pat@, to@) == spec_replace(
                s@,
                pat@,
                to@,
            ),
        decreases n - i,
    {
        let ghost suf = s@.subrange(i as int, n as int);
        let found = find_from(s, pat, i);
        match found {
            Some(j) => {
                proof {
                    lemma_find_from_some(s@, pat@, i as int, j as int);
                    lemma_find_shift(s@, pat@, i as int, 0);
                    assert(spec_find(suf, pat@) == Some(j - i));
                    assert(suf.subrange(0, j - i) =~= s@.subrange(i as int, j as int));
                    assert(suf.subrange(j - i + pat@.len() as int, suf.len() as int) =~= s@
                        .subrange(j + pat@.len() as int, n as int));
                    assert(spec_replace(suf, pat@, to@) == s@.subrange(i as int, j as int) + to@
                        + spec_replace(s@.subrange(j + pat@.len() as int, n as int), pat@, to@));
                }
                let piece = s.substring_char(i, j);
                res.append(piece);
                res.append(to);
                proof {
                    assert(res@ + spec_replace(s@.subrange(j + m as int, n as int), pat@, to@)
                        =~= spec_replace(s@, pat@, to@));
                }
                i = j + m;
            },
            None => {
                proof {
                    lemma_find_shift(s@, pat@, i as int, 0);
                    assert(spec_find(suf, pat@) is None);
                    assert(spec_replace(suf, pat@, to@) == suf);
                }
                let piece = s.substring_char(i, n);
                res.append(piece);
                assert(res@ =~= spec_replace(s@, pat@, to@));
                return res;
            },
        }
    }
}

} // verus!
