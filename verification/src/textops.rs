use vstd::prelude::*;

use vstd::string::{StrSliceExecFns, StringExecFns};

verus! {

/// Whether `pat` occurs in `s` starting at position `at`.
pub open spec fn match_at(s: Seq<char>, pat: Seq<char>, at: int) -> bool {
    0 <= at && at + pat.len() <= s.len() && s.subrange(at, at + pat.len()) == pat
}

/// The first position at or after `from` where `pat` occurs in `s`; an
/// empty `pat` is never found.
pub open spec fn find_sub_from(s: Seq<char>, pat: Seq<char>, from: int) -> Option<int>
    decreases s.len() - from,
{
    if pat.len() == 0 || from < 0 || from + pat.len() > s.len() {
        None
    } else if match_at(s, pat, from) {
        Some(from)
    } else {
        find_sub_from(s, pat, from + 1)
    }
}

/// `s` with every occurrence of `pat` replaced by `rep`, scanning left
/// to right without overlap. An empty `pat` replaces nothing.
pub open spec fn spec_replace(s: Seq<char>, pat: Seq<char>, rep: Seq<char>) -> Seq<char>
    decreases s.len(),
{
    if s.len() == 0 {
        Seq::empty()
    } else if pat.len() > 0 && pat.len() <= s.len() && s.take(pat.len() as int) == pat {
        rep + spec_replace(s.skip(pat.len() as int), pat, rep)
    } else {
        seq![s[0]] + spec_replace(s.skip(1), pat, rep)
    }
}

/// The parts joined with `sep` between each neighbouring pair.
pub open spec fn join_sep(parts: Seq<Seq<char>>, sep: Seq<char>) -> Seq<char>
    decreases parts.len(),
{
    if parts.len() == 0 {
        Seq::empty()
    } else if parts.len() == 1 {
        parts[0]
    } else {
        parts[0] + sep + join_sep(parts.drop_first(), sep)
    }
}

pub proof fn lemma_join_push(parts: Seq<Seq<char>>, sep: Seq<char>, x: Seq<char>)
    ensures
        join_sep(parts.push(x), sep) == if parts.len() == 0 {
            x
        } else {
            join_sep(parts, sep) + sep + x
        },
    decreases parts.len(),
{
    let pushed = parts.push(x);
    if parts.len() == 0 {
        assert(pushed[0] == x);
    } else if parts.len() == 1 {
        assert(pushed.drop_first() =~= seq![x]);
        assert(join_sep(pushed.drop_first(), sep) == x);
        assert(join_sep(parts, sep) == parts[0]);
    } else {
        assert(pushed.drop_first() =~= parts.drop_first().push(x));
        lemma_join_push(parts.drop_first(), sep, x);
        assert(pushed[0] + sep + join_sep(pushed.drop_first(), sep) =~= (parts[0] + sep
            + join_sep(parts.drop_first(), sep)) + sep + x);
    }
}

/// Whether `s` begins with `pre`.
pub open spec fn starts_with_seq(s: Seq<char>, pre: Seq<char>) -> bool {
    pre.len() <= s.len() && s.subrange(0, pre.len() as int) == pre
}

/// Whether `s` ends with `suf`.
pub open spec fn ends_with_seq(s: Seq<char>, suf: Seq<char>) -> bool {
    suf.len() <= s.len() && s.subrange(s.len() - suf.len(), s.len() as int) == suf
}

/// Whether the characters of `pat` stand in `s` at position `at`.
fn match_at_exec(s: &str, pat: &str, at: usize) -> (r: bool)
    requires
        at + pat@.len() <= s@.len(),
        s@.len() <= usize::MAX,
    ensures
        r == match_at(s@, pat@, at as int),
{
    let plen = pat.unicode_len();
    let mut i: usize = 0;
    while i < plen
        invariant
            i <= plen,
            plen == pat@.len(),
            at + plen <= s@.len(),
            s@.len() <= usize::MAX,
            forall|j: int| 0 <= j < i ==> s@[at + j] == pat@[j],
        decreases plen - i,
    {
        if s.get_char(at + i) != pat.get_char(i) {
            proof {
                assert(s@.subrange(at as int, at + plen) != pat@) by {
                    assert(s@.subrange(at as int, at + plen)[i as int] != pat@[i as int]);
                }
            }
            return false;
        }
        i = i + 1;
    }
    proof {
        assert(s@.subrange(at as int, at + plen) =~= pat@);
    }
    true
}

/// The first position at or after `from` where `pat` occurs in `s`.
pub fn find_sub(s: &str, pat: &str, from: usize) -> (r: Option<usize>)
    ensures
        match r {
            Some(i) => Some(i as int) == find_sub_from(s@, pat@, from as int) && from <= i && i
                + pat@.len() <= s@.len(),
            None => find_sub_from(s@, pat@, from as int) is None,
        },
{
    let slen = s.unicode_len();
    let plen = pat.unicode_len();
    if plen == 0 || plen > slen || from > slen - plen {
        return None;
    }
    let mut i: usize = from;
    while i <= slen - plen
        invariant
            from <= i,
            slen == s@.len(),
            plen == pat@.len(),
            0 < plen <= slen,
            find_sub_from(s@, pat@, from as int) == find_sub_from(s@, pat@, i as int),
        decreases slen - i,
    {
        if match_at_exec(s, pat, i) {
            return Some(i);
        }
        i = i + 1;
    }
    None
}

/// The first position at or after `from` where the character `c`
/// stands in `s`.
pub open spec fn find_char_from(s: Seq<char>, c: char, from: int) -> Option<int>
    decreases s.len() - from,
{
    if from < 0 || from >= s.len() {
        None
    } else if s[from] == c {
        Some(from)
    } else {
        find_char_from(s, c, from + 1)
    }
}

/// The first position at or after `from` where the character `c`
/// stands in `s`.
pub fn find_char(s: &str, c: char, from: usize) -> (r: Option<usize>)
    ensures
        match r {
            Some(i) => Some(i as int) == find_char_from(s@, c, from as int) && from <= i && i
                < s@.len() && s@[i as int] == c,
            None => find_char_from(s@, c, from as int) is None,
        },
{
    let slen = s.unicode_len();
    let mut i: usize = from;
    while i < slen
        invariant
            from <= i,
            slen == s@.len(),
            find_char_from(s@, c, from as int) == find_char_from(s@, c, i as int),
        decreases slen - i,
    {
        if s.get_char(i) == c {
            return Some(i);
        }
        i = i + 1;
    }
    None
}

proof fn lemma_replace_copies_until(s: Seq<char>, pat: Seq<char>, rep: Seq<char>, i: int, j: int)
    requires
        0 <= i <= j <= s.len(),
        pat.len() > 0,
        forall|m: int| i <= m < j ==> !match_at(s, pat, m),
    ensures
        spec_replace(s.skip(i), pat, rep) == s.subrange(i, j) + spec_replace(s.skip(j), pat, rep),
    decreases j - i,
{
    if i == j {
        assert(s.subrange(i, j) =~= Seq::empty());
        assert(s.subrange(i, j) + spec_replace(s.skip(j), pat, rep) =~= spec_replace(
            s.skip(j),
            pat,
            rep,
        ));
    } else {
        let t = s.skip(i);
        assert(t.len() > 0);
        assert(!match_at(s, pat, i));
        if pat.len() <= t.len() && t.take(pat.len() as int) == pat {
            assert(t.take(pat.len() as int) =~= s.subrange(i, i + pat.len()));
            assert(match_at(s, pat, i));
        }
        assert(spec_replace(t, pat, rep) == seq![t[0]] + spec_replace(t.skip(1), pat, rep));
        assert(t.skip(1) =~= s.skip(i + 1));
        lemma_replace_copies_until(s, pat, rep, i + 1, j);
        assert(seq![t[0]] + (s.subrange(i + 1, j) + spec_replace(s.skip(j), pat, rep)) =~= s
            .subrange(i, j) + spec_replace(s.skip(j), pat, rep));
    }
}

proof fn lemma_find_none_no_match(s: Seq<char>, pat: Seq<char>, from: int, m: int)
    requires
        pat.len() > 0,
        find_sub_from(s, pat, from) is None,
        from <= m,
        0 <= from,
    ensures
        !match_at(s, pat, m),
    decreases m - from,
{
    if from + pat.len() > s.len() {
    } else if from == m {
    } else {
        lemma_find_none_no_match(s, pat, from + 1, m);
    }
}

proof fn lemma_find_some_first(s: Seq<char>, pat: Seq<char>, from: int, j: int, m: int)
    requires
        pat.len() > 0,
        find_sub_from(s, pat, from) == Some(j),
        0 <= from <= m < j,
    ensures
        !match_at(s, pat, m),
    decreases m - from,
{
    if from == m {
    } else {
        lemma_find_some_first(s, pat, from + 1, j, m);
    }
}

proof fn lemma_find_some_match(s: Seq<char>, pat: Seq<char>, from: int, j: int)
    requires
        pat.len() > 0,
        find_sub_from(s, pat, from) == Some(j),
        0 <= from,
    ensures
        from <= j,
        match_at(s, pat, j),
    decreases s.len() - from,
{
    if from + pat.len() > s.len() {
    } else if match_at(s, pat, from) {
    } else {
        lemma_find_some_match(s, pat, from + 1, j);
    }
}

/// `s` with every occurrence of `pat` replaced by `rep`, scanning left
/// to right without overlap.
pub fn replace_all(s: &str, pat: &str, rep: &str) -> (r: String)
    ensures
        r@ == spec_replace(s@, pat@, rep@),
{
    let slen = s.unicode_len();
    let plen = pat.unicode_len();
    let mut r = String::new();
    if plen == 0 {
        let whole = s.substring_char(0, slen);
        r.append(whole);
        proof {
            assert(s@.subrange(0, slen as int) =~= s@);
            assert(pat@ =~= Seq::<char>::empty());
            lemma_replace_empty_pat(s@, rep@);
            assert(r@ =~= s@);
        }
        return r;
    }
    proof {
        assert(s@.skip(0) =~= s@);
    }
    let mut i: usize = 0;
    while i < slen
        invariant
            i <= slen,
            slen == s@.len(),
            plen == pat@.len(),
            plen > 0,
            spec_replace(s@, pat@, rep@) == r@ + spec_replace(s@.skip(i as int), pat@, rep@),
        decreases slen - i,
    {
        let ghost r_before = r@;
        match find_sub(s, pat, i) {
            Some(j) => {
                proof {
                    lemma_find_some_match(s@, pat@, i as int, j as int);
                    assert forall|m: int| i <= m < j implies !match_at(s@, pat@, m) by {
                        lemma_find_some_first(s@, pat@, i as int, j as int, m);
                    }
                    lemma_replace_copies_until(s@, pat@, rep@, i as int, j as int);
                }
                let copied = s.substring_char(i, j);
                r.append(copied);
                r.append(rep);
                proof {
                    let t = s@.skip(j as int);
                    assert(t.take(plen as int) =~= s@.subrange(j as int, j + plen));
                    assert(t.take(plen as int) == pat@);
                    assert(t.skip(plen as int) =~= s@.skip(j + plen));
                    assert(spec_replace(t, pat@, rep@) == rep@ + spec_replace(
                        s@.skip(j + plen),
                        pat@,
                        rep@,
                    ));
                    assert(r@ + spec_replace(s@.skip(j + plen), pat@, rep@) =~= r_before
                        + spec_replace(s@.skip(i as int), pat@, rep@));
                }
                i = j + plen;
            },
            None => {
                proof {
                    assert forall|m: int| i <= m < slen implies !match_at(s@, pat@, m) by {
                        lemma_find_none_no_match(s@, pat@, i as int, m);
                    }
                    lemma_replace_copies_until(s@, pat@, rep@, i as int, slen as int);
                    assert(spec_replace(s@.skip(slen as int), pat@, rep@) =~= Seq::empty());
                }
                let rest = s.substring_char(i, slen);
                r.append(rest);
                proof {
                    assert(r@ =~= spec_replace(s@, pat@, rep@));
                }
                return r;
            },
        }
    }
    proof {
        assert(s@.skip(slen as int) =~= Seq::<char>::empty());
    }
    r
}

proof fn lemma_replace_empty_pat(s: Seq<char>, rep: Seq<char>)
    ensures
        spec_replace(s, Seq::empty(), rep) == s,
    decreases s.len(),
{
    if s.len() == 0 {
        assert(spec_replace(s, Seq::empty(), rep) =~= s);
    } else {
        lemma_replace_empty_pat(s.skip(1), rep);
        assert(seq![s[0]] + s.skip(1) =~= s);
    }
}

/// Whether `s` begins with `pre`.
pub fn str_starts_with(s: &str, pre: &str) -> (r: bool)
    ensures
        r == starts_with_seq(s@, pre@),
{
    let slen = s.unicode_len();
    let plen = pre.unicode_len();
    if plen > slen {
        return false;
    }
    match_at_exec(s, pre, 0)
}

/// Whether `s` ends with `suf`.
pub fn str_ends_with(s: &str, suf: &str) -> (r: bool)
    ensures
        r == ends_with_seq(s@, suf@),
{
    let slen = s.unicode_len();
    let plen = suf.unicode_len();
    if plen > slen {
        return false;
    }
    match_at_exec(s, suf, slen - plen)
}

} // verus!
